use std::borrow::Cow;
use std::sync::Arc;
use tds_rpc::flags::{FlagSet, IntoFlags};
use tds_rpc::options::flags_to_i32;
use tds_rpc::procedure::{
    call_procedure, ParameterDirection, ProcedureParameter, ProcedureResult,
};
use tds_rpc::rpc::{Action, RpcProcIdValue, RpcStatus};
use tds_rpc::types::{
    BufferedResultSet, ColumnData, FixedLenType, OutputValue, TokenInfo, TypeInfo, VarLenContext,
    VarLenType,
};

fn by_ref() -> FlagSet<RpcStatus> {
    RpcStatus::ByRefValue.into_flags()
}

#[test]
fn input_sets_no_flags() {
    let p = ProcedureParameter::input(
        TypeInfo::FixedLen(FixedLenType::Int4),
        ColumnData::I32(Some(1)),
    );
    assert_eq!(p.direction(), ParameterDirection::Input);
    let rpc = p.into_rpc_param();
    assert_eq!(rpc.flags, FlagSet::empty());
    assert_eq!(rpc.name, Cow::Borrowed(""));
}

#[test]
fn output_sets_byref_flag_and_preserves_explicit_null() {
    let ty = TypeInfo::VarLenSized(VarLenContext {
        ty: VarLenType::Intn,
        len: 4,
        collation: None,
    });
    let p = ProcedureParameter::output(ty.clone(), ColumnData::I32(None)).named("@out");
    assert_eq!(p.direction(), ParameterDirection::Output);
    assert_eq!(p.name(), Some("@out"));
    assert_eq!(p.type_info(), &ty);
    assert!(matches!(p.value(), ColumnData::I32(None)));

    let rpc = p.into_rpc_param();
    assert_eq!(rpc.flags, by_ref());
    assert_eq!(rpc.name, Cow::Borrowed("@out"));
    assert_eq!(rpc.type_info, Some(ty));
    assert!(matches!(rpc.value, ColumnData::I32(None)));
}

#[test]
fn input_output_sets_byref_flag_and_keeps_value() {
    let p = ProcedureParameter::input_output(
        TypeInfo::FixedLen(FixedLenType::Int4),
        ColumnData::I32(Some(7)),
    );
    assert_eq!(p.direction(), ParameterDirection::InputOutput);
    let rpc = p.into_rpc_param();
    assert_eq!(rpc.flags, by_ref());
    assert!(matches!(rpc.value, ColumnData::I32(Some(7))));
}

#[test]
fn positional_by_default() {
    let p = ProcedureParameter::input(
        TypeInfo::FixedLen(FixedLenType::Int4),
        ColumnData::I32(Some(1)),
    );
    assert_eq!(p.name(), None);
    let rpc = p.into_rpc_param();
    assert_eq!(rpc.name, Cow::Borrowed(""));
}

#[test]
fn return_status_wire_bits_reinterpreted_as_signed() {
    // TDS RETURNSTATUS is a signed i32; a wire value of 0xFFFFFFFF
    // (a common "failure" convention) must surface as -1, not
    // 4294967295.
    let wire: u32 = 0xFFFF_FFFF;
    assert_eq!(wire as i32, -1);
    assert_eq!(flags_to_i32(wire), -1);
    let result = ProcedureResult::from_response(vec![], vec![], Some(wire), vec![]);
    assert_eq!(result.return_status, Some(-1));
}

#[test]
fn names_can_be_borrowed_or_owned() {
    let ty = TypeInfo::FixedLen(FixedLenType::Int4);
    let borrowed = ProcedureParameter::input(ty, ColumnData::I32(Some(1))).named("@a");
    let owned = ProcedureParameter::input(ty, ColumnData::I32(Some(1))).named("@b".to_string());
    let cow = borrowed.clone().named(Cow::Borrowed("@c"));
    let text = "@d".to_string();
    let by_reference = borrowed.clone().named(&text);
    assert_eq!(by_reference.name(), Some("@d"));
    assert_eq!(borrowed.name(), Some("@a"));
    assert_eq!(owned.name(), Some("@b"));
    assert_eq!(cow.name(), Some("@c"));
}

#[test]
fn a_call_sends_its_parameters_in_order() {
    let ty = TypeInfo::FixedLen(FixedLenType::Int4);
    let call = call_procedure(
        "my_schema.my_procedure",
        vec![
            ProcedureParameter::input(ty, ColumnData::I32(Some(42))).named("@input"),
            ProcedureParameter::output(ty, ColumnData::I32(None)),
            ProcedureParameter::input_output(ty, ColumnData::I32(Some(5))).named("@both"),
        ],
    );
    let (call, action) = call.step(true);
    match action {
        Action::Send(request) => {
            assert!(matches!(
                request.proc,
                RpcProcIdValue::Name(ref name) if name == "my_schema.my_procedure"
            ));
            let names: Vec<&str> = request.params.iter().map(|p| p.name.as_ref()).collect();
            assert_eq!(names, vec!["@input", "", "@both"]);
            let flags: Vec<u32> = request.params.iter().map(|p| p.flags.bits()).collect();
            assert_eq!(flags, vec![0, 1, 1]);
            assert!(request.params.iter().all(|p| p.type_info == Some(ty)));
            assert!(matches!(request.params[0].value, ColumnData::I32(Some(42))));
            assert!(matches!(request.params[1].value, ColumnData::I32(None)));
            assert!(matches!(request.params[2].value, ColumnData::I32(Some(5))));
        }
        other => panic!("expected a request, got {:?}", other),
    }
    let (_, action) = call.step(true);
    assert!(matches!(action, Action::Receive));
}

#[test]
fn a_result_holds_the_whole_response() {
    let set = BufferedResultSet {
        columns: Arc::new(vec![]),
        rows: vec![],
    };
    let output = OutputValue {
        name: "@out".to_string(),
        ordinal: 3,
        value: ColumnData::I32(Some(8)),
    };
    let message = TokenInfo {
        number: 50000,
        state: 1,
        class: 0,
        message: "hello".to_string(),
        server: "srv".to_string(),
        procedure: "p".to_string(),
        line: 2,
    };
    let result = ProcedureResult::from_response(vec![set], vec![output], None, vec![message]);
    assert_eq!(result.result_sets.len(), 1);
    assert_eq!(result.output_values[0].get_i32(), Some(8));
    assert!(result.output_values[0].matches_name("out"));
    assert!(result.output_values[0].matches_name("@out"));
    assert!(!result.output_values[0].matches_name("@ou"));
    assert_eq!(result.return_status, None);
    assert_eq!(result.messages[0].message, "hello");
    assert_eq!(
        ProcedureResult::from_response(vec![], vec![], Some(7), vec![]).return_status,
        Some(7)
    );
}

#[test]
fn an_output_without_a_name_matches_none() {
    let output = OutputValue {
        name: String::new(),
        ordinal: 0,
        value: ColumnData::String(None),
    };
    assert!(!output.matches_name(""));
    assert!(!output.matches_name("@"));
    assert_eq!(output.get_i32(), None);
}
