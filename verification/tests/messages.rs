use xivc::job::brd::BrdError;
use xivc::job::rpr::{RprAction, RprError};
use xivc::job::sam::{SamAction, SamError};
use xivc::job::brd::hawks_eye;
use xivc::util::status_proc_error;

#[test]
fn sam_error_messages() {
    assert_eq!(SamError::Kenki(25).message(), "Not enough Kenki, needed at least 25");
    assert_eq!(SamError::IaiSen(3).message(), "Invalid Sen count, expected 3");
    assert_eq!(SamError::Kaeshi(SamAction::Midare).message(), "Not executed following Midare Setsugekka");
    assert_eq!(SamError::HagaSen.message(), "Invalid Sen count, expected at least 1");
    assert_eq!(SamError::Meditation.message(), "Invalid Meditation count, expected 3");
    assert_eq!(SamError::OgiRdy.message(), "Not under the effect of 'Ogi Namikiri Ready'");
}

#[test]
fn brd_error_messages() {
    assert_eq!(BrdError::SoulVoice(100).message(), "Not enough Soul Voice gauge, needed at least 100.");
    assert_eq!(BrdError::HawksEye.message(), "Not under the effect of 'Hawk's Eye'.");
    assert_eq!(BrdError::Coda.message(), "Not enough Coda.");
    assert_eq!(
        BrdError::PitchPerfect.message(),
        "Not enough stacks of Repertoire to cast 'Pitch Perfect'."
    );
}

#[test]
fn rpr_error_messages() {
    assert_eq!(RprError::Soul(50).message(), "Not enough Soul Gauge, needed at least 50.");
    assert_eq!(RprError::Shroud(50).message(), "Not enough Shroud Gauge, needed at least 50.");
    assert_eq!(RprError::Lemure(1).message(), "Not enough stacks of Lemure Shroud, needed at least 1.");
    assert_eq!(RprError::Void(2).message(), "Not enough stacks of Void Shroud, needed at least 2.");
    assert_eq!(
        RprError::Enshroud(RprAction::Gibbet).message(),
        "Cannot use action 'Gibbet' under the effect of 'Enshroud'."
    );
    assert!(RprError::Bloodsown.message().starts_with("Cannot use action 'Plentiful Harvest' under the effect of '"));
}

#[test]
fn status_proc_error_names_the_status() {
    assert_eq!(status_proc_error(hawks_eye()), "Not under the effect of 'Hawk's Eye'.");
}
