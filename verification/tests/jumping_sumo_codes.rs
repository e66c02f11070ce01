use arsdk::jumping_sumo::{Anim, Class, PilotState, PilotingID};

#[test]
fn test_piloting_command() {
    assert_piloting(PilotingID::Pilot(PilotState::default()), 0);
    assert_piloting(PilotingID::Posture, 1);
    assert_piloting(PilotingID::AddCapOffset, 2);
}

#[test]
fn jumping_sumo_test_piloting_command() {
    assert_piloting(PilotingID::Pilot(PilotState::default()), 0);
    assert_piloting(PilotingID::Posture, 1);
    assert_piloting(PilotingID::AddCapOffset, 2);
}

#[test]
fn test_anim() {
    assert_anim(Anim::JumpStop, 0);
    assert_anim(Anim::JumpCancel, 1);
    assert_anim(Anim::JumpLoad, 2);
    assert_anim(Anim::Jump, 3);
    assert_anim(Anim::SimpleAnimation, 4);
}

#[test]
fn jumping_sumo_test_anim() {
    assert_anim(Anim::JumpStop, 0);
    assert_anim(Anim::JumpCancel, 1);
    assert_anim(Anim::JumpLoad, 2);
    assert_anim(Anim::Jump, 3);
    assert_anim(Anim::SimpleAnimation, 4);
}

#[test]
fn jumping_sumo_test_class() {
    assert_class(Class::Piloting(PilotingID::Pilot(PilotState::default())), 0);
    assert_class(Class::PilotingState, 1);
    assert_class(Class::Animations(Anim::Jump), 2);
    assert_class(Class::AnimationsState, 3);
    assert_class(Class::SettingsState, 5);
    assert_class(Class::MediaRecord, 6);
    assert_class(Class::MediaRecordState, 7);
    assert_class(Class::NetworkSettings, 8);
    assert_class(Class::NetworkSettingsState, 9);
    assert_class(Class::Network, 10);
    assert_class(Class::NetworkState, 11);
    assert_class(Class::AutioSettings, 12);
    assert_class(Class::AudioSettingsState, 13);
    assert_class(Class::Roadplan, 14);
    assert_class(Class::RoadplanState, 15);
    assert_class(Class::SpeedSettings, 16);
    assert_class(Class::SpeedSettingsState, 17);
    assert_class(Class::MediaStreaming, 18);
    assert_class(Class::MediaStreamingState, 19);
    assert_class(Class::MediaRecordEvent, 20);
    assert_class(Class::VideoSettings, 21);
    assert_class(Class::VideoSettingsState, 22);
}

fn assert_class(dc: Class, v: u8) {
    let as_u8: u8 = dc.code();
    assert_eq!(v, as_u8);
}

fn assert_anim(a: Anim, v: u8) {
    let as_u8: u8 = a.code();
    assert_eq!(v, as_u8);
}

fn assert_piloting(pc: PilotingID, v: u16) {
    let as_u8: u16 = pc.code();
    assert_eq!(v, as_u8);
}
