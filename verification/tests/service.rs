use std::cell::RefCell;
use w6otx::cli::{join_status_line, status_line, PowerAction};
use w6otx::command::OutletControlCommand;
use w6otx::error::{PduError, TransportFailure};
use w6otx::outlet::Outlet;
use w6otx::service::{
    control_outlet, get_outlet_status, read_control_ack, read_status_reply, WireValue, COMMUNITY,
    DEFAULT_HOST, REQUEST_TIMEOUT_SECONDS,
};
use w6otx::status::OutletStatus;
use w6otx::web::{
    control_response, parse_control_request, status_entry, system_power_status, StatusEntry,
};

type ReadReply = Result<Vec<WireValue>, TransportFailure>;

#[test]
fn status_of_dmr_2m_reads_its_identifier_and_decodes_on() {
    let seen: RefCell<Vec<[u32; 16]>> = RefCell::new(Vec::new());
    let read = |oid: [u32; 16]| -> ReadReply {
        seen.borrow_mut().push(oid);
        Ok(vec![WireValue::Integer(2)])
    };
    let outlet = Outlet::from_str("dmr-2m").unwrap();
    assert_eq!(get_outlet_status(read, outlet), Ok(OutletStatus::On));
    assert_eq!(
        *seen.borrow(),
        vec![[1, 3, 6, 1, 4, 1, 318, 1, 1, 26, 9, 2, 3, 1, 5, 8]]
    );
}

#[test]
fn control_request_writes_the_code_to_the_control_identifier() {
    let seen: RefCell<Vec<([u32; 16], i64)>> = RefCell::new(Vec::new());
    let write = |oid: [u32; 16], value: i64| -> Result<(), TransportFailure> {
        seen.borrow_mut().push((oid, value));
        Ok(())
    };
    let (outlet, command) = parse_control_request("fm-33cm", "immediate-reboot").unwrap();
    assert_eq!(outlet, Outlet::FM_33cm);
    assert_eq!(command, OutletControlCommand::ImmediateReboot);
    let outcome = control_outlet(write, outlet, command);
    assert_eq!(outcome, Ok(()));
    assert_eq!(control_response(outcome), "ok");
    assert_eq!(
        *seen.borrow(),
        vec![([1, 3, 6, 1, 4, 1, 318, 1, 1, 26, 9, 2, 4, 1, 5, 7], 3)]
    );
}

#[test]
fn one_failed_read_marks_its_line_and_keeps_the_rest() {
    let seen: RefCell<Vec<u32>> = RefCell::new(Vec::new());
    let read = |oid: [u32; 16]| -> ReadReply {
        seen.borrow_mut().push(oid[15]);
        if oid[15] == 4 {
            Err(TransportFailure::ReceiveError)
        } else if oid[15] % 2 == 0 {
            Ok(vec![WireValue::Integer(2)])
        } else {
            Ok(vec![WireValue::Integer(1)])
        }
    };
    let listing = system_power_status(&read);
    let expected = [
        ("battery-charger", "off"),
        ("unused2", "on"),
        ("unused3", "off"),
        ("unused4", "? (failure)"),
        ("unused5", "off"),
        ("dmr-70cm", "on"),
        ("fm-33cm", "off"),
        ("dmr-2m", "on"),
    ];
    assert_eq!(listing.statuses.len(), 8);
    for (entry, (outlet, status)) in listing.statuses.iter().zip(expected) {
        assert_eq!(entry.outlet, outlet);
        assert_eq!(entry.status, status);
    }
    assert_eq!(*seen.borrow(), vec![1, 2, 3, 4, 5, 6, 7, 8]);
}

#[test]
fn listing_has_a_line_for_each_outlet_when_every_read_fails() {
    let read = |_oid: [u32; 16]| -> ReadReply { Err(TransportFailure::SendError) };
    let listing = system_power_status(&read);
    let names: Vec<&str> = listing.statuses.iter().map(|entry| entry.outlet.as_str()).collect();
    assert_eq!(
        names,
        vec![
            "battery-charger",
            "unused2",
            "unused3",
            "unused4",
            "unused5",
            "dmr-70cm",
            "fm-33cm",
            "dmr-2m"
        ]
    );
    for entry in &listing.statuses {
        assert_eq!(entry.status, "? (failure)");
    }
}

#[test]
fn listing_reads_the_status_identifier_of_each_outlet() {
    let seen: RefCell<Vec<[u32; 16]>> = RefCell::new(Vec::new());
    let read = |oid: [u32; 16]| -> ReadReply {
        seen.borrow_mut().push(oid);
        Ok(vec![WireValue::Integer(1)])
    };
    system_power_status(&read);
    let seen = seen.borrow();
    assert_eq!(seen.len(), 8);
    for (i, oid) in seen.iter().enumerate() {
        assert_eq!(
            *oid,
            [1, 3, 6, 1, 4, 1, 318, 1, 1, 26, 9, 2, 3, 1, 5, i as u32 + 1]
        );
    }
}

#[test]
fn a_lone_integer_is_decoded() {
    assert_eq!(read_status_reply(Ok(vec![WireValue::Integer(1)])), Ok(OutletStatus::Off));
    assert_eq!(read_status_reply(Ok(vec![WireValue::Integer(2)])), Ok(OutletStatus::On));
}

#[test]
fn any_other_reply_shape_is_out_of_range() {
    let out_of_range = Err(PduError::ValueOutOfRange);
    assert_eq!(read_status_reply(Ok(vec![])), out_of_range);
    assert_eq!(read_status_reply(Ok(vec![WireValue::Other])), out_of_range);
    assert_eq!(read_status_reply(Ok(vec![WireValue::Integer(0)])), out_of_range);
    assert_eq!(read_status_reply(Ok(vec![WireValue::Integer(3)])), out_of_range);
    assert_eq!(
        read_status_reply(Ok(vec![WireValue::Integer(2), WireValue::Integer(2)])),
        out_of_range
    );
    assert_eq!(
        read_status_reply(Ok(vec![WireValue::Integer(1), WireValue::Other])),
        out_of_range
    );
}

#[test]
fn transport_failures_pass_through_unchanged() {
    let failures = [
        TransportFailure::AsnParseError,
        TransportFailure::AsnInvalidLen,
        TransportFailure::AsnWrongType,
        TransportFailure::AsnUnsupportedType,
        TransportFailure::AsnEof,
        TransportFailure::AsnIntOverflow,
        TransportFailure::UnsupportedVersion,
        TransportFailure::RequestIdMismatch,
        TransportFailure::CommunityMismatch,
        TransportFailure::ValueOutOfRange,
        TransportFailure::SendError,
        TransportFailure::ReceiveError,
    ];
    for failure in failures {
        assert_eq!(read_status_reply(Err(failure)), Err(PduError::TransportFailure(failure)));
        assert_eq!(read_control_ack(Err(failure)), Err(PduError::TransportFailure(failure)));
        let read = |_oid: [u32; 16]| -> ReadReply { Err(failure) };
        assert_eq!(
            get_outlet_status(&read, Outlet::BatteryCharger),
            Err(PduError::TransportFailure(failure))
        );
        let write = |_oid: [u32; 16], _value: i64| -> Result<(), TransportFailure> { Err(failure) };
        assert_eq!(
            control_outlet(&write, Outlet::Unused2, OutletControlCommand::ImmediateOff),
            Err(PduError::TransportFailure(failure))
        );
    }
    assert_eq!(read_control_ack(Ok(())), Ok(()));
}

#[test]
fn each_operation_makes_one_request() {
    let reads: RefCell<u32> = RefCell::new(0);
    let read = |_oid: [u32; 16]| -> ReadReply {
        *reads.borrow_mut() += 1;
        Err(TransportFailure::ReceiveError)
    };
    assert!(get_outlet_status(&read, Outlet::DMR_70cm).is_err());
    assert_eq!(*reads.borrow(), 1);
    let writes: RefCell<u32> = RefCell::new(0);
    let write = |_oid: [u32; 16], _value: i64| -> Result<(), TransportFailure> {
        *writes.borrow_mut() += 1;
        Err(TransportFailure::ReceiveError)
    };
    assert!(control_outlet(&write, Outlet::DMR_70cm, OutletControlCommand::ImmediateOn).is_err());
    assert_eq!(*writes.borrow(), 1);
}

#[test]
fn every_command_is_written_with_its_code() {
    for (i, command) in OutletControlCommand::all().into_iter().enumerate() {
        let seen: RefCell<Vec<([u32; 16], i64)>> = RefCell::new(Vec::new());
        let write = |oid: [u32; 16], value: i64| -> Result<(), TransportFailure> {
            seen.borrow_mut().push((oid, value));
            Ok(())
        };
        assert_eq!(control_outlet(&write, Outlet::BatteryCharger, command), Ok(()));
        assert_eq!(
            *seen.borrow(),
            vec![([1, 3, 6, 1, 4, 1, 318, 1, 1, 26, 9, 2, 4, 1, 5, 1], i as i64 + 1)]
        );
    }
}

#[test]
fn control_requests_name_outlet_and_command() {
    assert_eq!(
        parse_control_request("dmr-2m", "Immediate-On"),
        Ok((Outlet::DMR_2m, OutletControlCommand::ImmediateOn))
    );
    assert_eq!(parse_control_request("dmr-2M", "immediate-on"), Err(PduError::UnknownOutlet));
    assert_eq!(parse_control_request("dmr-2m", "bounce"), Err(PduError::UnknownCommand));
    assert_eq!(parse_control_request("nowhere", "bounce"), Err(PduError::UnknownOutlet));
    assert_eq!(parse_control_request("", ""), Err(PduError::UnknownOutlet));
}

#[test]
fn control_responses() {
    assert_eq!(control_response(Ok(())), "ok");
    assert_eq!(
        control_response(Err(PduError::TransportFailure(TransportFailure::ReceiveError))),
        "failed"
    );
    assert_eq!(control_response(Err(PduError::ValueOutOfRange)), "failed");
}

#[test]
fn status_entries() {
    assert_eq!(
        status_entry(Outlet::DMR_70cm, Ok(OutletStatus::On)),
        StatusEntry { outlet: "dmr-70cm".to_string(), status: "on".to_string() }
    );
    assert_eq!(
        status_entry(Outlet::Unused5, Ok(OutletStatus::Off)),
        StatusEntry { outlet: "unused5".to_string(), status: "off".to_string() }
    );
    assert_eq!(
        status_entry(Outlet::FM_33cm, Err(PduError::ValueOutOfRange)),
        StatusEntry { outlet: "fm-33cm".to_string(), status: "? (failure)".to_string() }
    );
}

#[test]
fn power_actions_are_immediate_commands() {
    assert_eq!(PowerAction::PowerOn.command(), OutletControlCommand::ImmediateOn);
    assert_eq!(PowerAction::PowerOff.command(), OutletControlCommand::ImmediateOff);
    assert_eq!(PowerAction::Bounce.command(), OutletControlCommand::ImmediateReboot);
    assert_eq!(PowerAction::PowerOn.command().wire_code(), 1);
    assert_eq!(PowerAction::PowerOff.command().wire_code(), 2);
    assert_eq!(PowerAction::Bounce.command().wire_code(), 3);
}

#[test]
fn status_lines_join_label_and_state() {
    assert_eq!(join_status_line("dmr-2m".to_string(), OutletStatus::On), "dmr-2m On");
    assert_eq!(join_status_line(String::new(), OutletStatus::Off), " Off");
    assert_eq!(join_status_line("Any Label".to_string(), OutletStatus::Off), "Any Label Off");
}

#[test]
fn status_lines_put_the_name_in_kebab_case() {
    for outlet in Outlet::iter() {
        assert_eq!(
            status_line(outlet.name(), OutletStatus::On),
            format!("{} On", outlet.name())
        );
    }
    assert_eq!(status_line("Hello World", OutletStatus::Off), "hello-world Off");
    assert_eq!(status_line("helloWorld", OutletStatus::On), "hello-world On");
    assert_eq!(status_line("HELLO_WORLD", OutletStatus::On), "hello-world On");
}

#[test]
fn session_settings() {
    assert_eq!(DEFAULT_HOST, "apc-rpdu:161");
    assert_eq!(COMMUNITY, "private");
    assert_eq!(COMMUNITY.as_bytes(), b"private");
    assert_eq!(REQUEST_TIMEOUT_SECONDS, 5);
}
