use arsdk::ardrone3::{ArDrone3, Piloting};
use arsdk::command::Feature;
use arsdk::common::{Class as CommonClass, Common};
use arsdk::jumping_sumo;

#[test]
fn test_feature() {
    assert_feature(
        Feature::Common(Some(CommonClass::Common(Common::AllStates))),
        0,
    );
    assert_feature(
        Feature::ArDrone3(Some(ArDrone3::Piloting(Piloting::TakeOff))),
        1,
    );
    assert_feature(Feature::Minidrone, 2);
    assert_feature(
        Feature::JumpingSumo(jumping_sumo::Class::Piloting(
            jumping_sumo::PilotingID::Pilot(jumping_sumo::PilotState::default()),
        )),
        3,
    );
    assert_feature(Feature::SkyController, 4);
    assert_feature(Feature::PowerUp, 8);
    assert_feature(Feature::Generic, 133);
    assert_feature(Feature::FollowMe, 134);
    assert_feature(Feature::Wifi, 135);
    assert_feature(Feature::RC, 136);
    assert_feature(Feature::DroneManager, 137);
    assert_feature(Feature::Mapper, 138);
    assert_feature(Feature::Debug, 139);
    assert_feature(Feature::ControllerInfo, 140);
    assert_feature(Feature::MapperMini, 141);
    assert_feature(Feature::ThermalCam, 142);
    assert_feature(Feature::Animation, 144);
    assert_feature(Feature::SequoiaCam, 147);
}

fn assert_feature(f: Feature, v: u8) {
    let as_u8: u8 = f.code();
    assert_eq!(v, as_u8);
}
