use sip_edge::in_dialog::{
    forward_cseq, forward_leg, in_dialog_action, in_dialog_entry, InDialogAction, InDialogEntry,
};
use sip_edge::refer::DialogLeg;
use sip_edge::sip::Method;

#[test]
fn entry_absorbs_unmatched_ack_and_refuses_the_rest() {
    assert_eq!(in_dialog_entry(&Method::Ack, false, false), InDialogEntry::Absorb);
    assert_eq!(in_dialog_entry(&Method::Ack, true, false), InDialogEntry::Absorb);
    assert_eq!(in_dialog_entry(&Method::Bye, false, false), InDialogEntry::MissingCallId);
    assert_eq!(in_dialog_entry(&Method::Bye, true, false), InDialogEntry::UnknownCall);
    assert_eq!(in_dialog_entry(&Method::Ack, true, true), InDialogEntry::Validate);
}

#[test]
fn action_by_method() {
    assert_eq!(in_dialog_action(&Method::Ack), InDialogAction::Absorb);
    assert_eq!(in_dialog_action(&Method::Cancel), InDialogAction::Teardown);
    assert_eq!(in_dialog_action(&Method::Info), InDialogAction::Info);
    assert_eq!(in_dialog_action(&Method::Prack), InDialogAction::AnswerPrack);
    assert_eq!(in_dialog_action(&Method::Refer), InDialogAction::Transfer);
    assert_eq!(in_dialog_action(&Method::Update), InDialogAction::Forward);
    assert_eq!(in_dialog_action(&Method::Extension("PUBLISH2".to_string())), InDialogAction::Forward);
}

#[test]
fn forwarding_goes_to_another_leg() {
    assert_eq!(forward_leg(DialogLeg::Caller, None), DialogLeg::Gateway);
    assert_eq!(forward_leg(DialogLeg::Gateway, None), DialogLeg::Caller);
    assert_eq!(forward_leg(DialogLeg::Caller, Some(DialogLeg::Caller)), DialogLeg::Transfer);
    assert_eq!(forward_leg(DialogLeg::Gateway, Some(DialogLeg::Caller)), DialogLeg::Caller);
    assert_eq!(forward_leg(DialogLeg::Transfer, Some(DialogLeg::Gateway)), DialogLeg::Gateway);
    assert_eq!(forward_leg(DialogLeg::Transfer, None), DialogLeg::Caller);
}

#[test]
fn cancel_keeps_cseq_others_advance() {
    assert_eq!(forward_cseq(&Method::Cancel, 7), 7);
    assert_eq!(forward_cseq(&Method::Bye, 7), 8);
    assert_eq!(forward_cseq(&Method::Info, u32::MAX), u32::MAX);
}
