use plantrig::settings::{
    CameraSetting, GpioPin, LinearsSetting, ModelSize, RestAPISetting, Setting, StepperSetting,
    VisionSetting,
};

fn stepper() -> StepperSetting {
    StepperSetting {
        reversed: false,
        en_pin: GpioPin::default(),
        diag_pin: GpioPin::default(),
        step_pin: GpioPin::default(),
        dir_pin: GpioPin::default(),
    }
}

fn sample() -> Setting {
    Setting {
        vision: VisionSetting {
            path: "./best.safetensors".to_owned(),
            size: ModelSize::default(),
            num_classes: 3,
            nms_threshold_permille: 500,
            acc_threshold_permille: 500,
            interval: 60,
        },
        config_path: "./config.toml".to_owned(),
        camera: CameraSetting::default(),
        restapi: RestAPISetting::default(),
        linear_actuators: LinearsSetting { x: stepper(), y: stepper(), z: stepper() },
    }
}

#[test]
fn defaults_point_at_the_first_devices() {
    assert_eq!(GpioPin::default().chip, "/dev/gpiochip0");
    assert_eq!(GpioPin::default().line, 0);
    assert_eq!(CameraSetting::default().video_path, "/dev/video0");
    assert_eq!(RestAPISetting::default().port, 0);
    assert_eq!(ModelSize::default(), ModelSize::N);
}

#[test]
fn setters_replace_exactly_their_section() {
    let mut s = sample();
    s.set_restapi(RestAPISetting { port: 8080 });
    assert_eq!(s.restapi().port, 8080);
    assert_eq!(s.camera().video_path, "/dev/video0");

    s.set_config("/etc/rig.toml".to_owned());
    assert_eq!(s.config(), "/etc/rig.toml");

    s.set_camera(CameraSetting { video_path: "/dev/video2".to_owned() });
    assert_eq!(s.camera().video_path, "/dev/video2");
    assert_eq!(s.restapi().port, 8080);

    let mut acts = s.linear_actuators().clone();
    acts.x.reversed = true;
    s.set_linear_actuators(acts);
    assert!(s.linear_actuators().x.reversed);

    let mut vision = s.model().clone();
    vision.num_classes = 4;
    s.set_model(vision);
    assert_eq!(s.model().num_classes, 4);
}
