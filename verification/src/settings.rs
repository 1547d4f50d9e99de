//! Process settings: what the rig reads at startup and writes back after
//! state-changing operations. The settings are an explicitly constructed,
//! owned value handed to each task at startup — no ambient global access —
//! and persistence (reading and writing the file) is the embedding
//! program's job.

use vstd::prelude::*;

verus! {

/// The vision model sizes a detector can be built at.
#[derive(Clone, Copy, Debug, PartialEq, Eq, Structural)]
pub enum ModelSize {
    N,
    S,
    M,
    L,
    X,
}

impl Default for ModelSize {
    /// The smallest model.
    fn default() -> (d: ModelSize)
        ensures
            d == ModelSize::N,
    {
        ModelSize::N
    }
}

/// Where the settings file itself lives.
#[derive(Clone, Debug)]
pub struct ConfigSetting {
    pub path: String,
}

/// The port the REST front end listens on.
#[derive(Clone, Copy, Debug, PartialEq, Eq, Structural)]
pub struct RestAPISetting {
    pub port: u16,
}

impl Default for RestAPISetting {
    fn default() -> (d: RestAPISetting)
        ensures
            d.port == 0,
    {
        RestAPISetting { port: 0 }
    }
}

/// Which video device the camera capability opens.
#[derive(Clone, Debug)]
pub struct CameraSetting {
    pub video_path: String,
}

impl Default for CameraSetting {
    /// The first video device.
    fn default() -> (d: CameraSetting)
        ensures
            d.video_path@ == "/dev/video0"@,
    {
        CameraSetting { video_path: "/dev/video0".to_owned() }
    }
}

/// Vision model parameters. Score thresholds are kept in permille, so the
/// settings stay in integers.
#[derive(Clone, Debug)]
pub struct VisionSetting {
    pub path: String,
    pub size: ModelSize,
    pub num_classes: usize,
    pub nms_threshold_permille: u32,
    pub acc_threshold_permille: u32,
    pub interval: u64,
}

/// The pin assignments of one stepper axis.
#[derive(Clone, Debug)]
pub struct StepperSetting {
    pub reversed: bool,
    pub en_pin: GpioPin,
    pub diag_pin: GpioPin,
    pub step_pin: GpioPin,
    pub dir_pin: GpioPin,
}

/// The pin assignments of the three stepper axes.
#[derive(Clone, Debug)]
pub struct LinearsSetting {
    pub x: StepperSetting,
    pub y: StepperSetting,
    pub z: StepperSetting,
}

/// One GPIO line: chip device path and line offset.
#[derive(Clone, Debug)]
pub struct GpioPin {
    pub chip: String,
    pub line: u32,
}

impl Default for GpioPin {
    /// The first line of the first GPIO chip.
    fn default() -> (d: GpioPin)
        ensures
            d.chip@ == "/dev/gpiochip0"@,
            d.line == 0,
    {
        GpioPin { chip: "/dev/gpiochip0".to_owned(), line: 0 }
    }
}

/// The whole settings record.
#[derive(Clone, Debug)]
pub struct Setting {
    pub vision: VisionSetting,
    pub config_path: String,
    pub camera: CameraSetting,
    pub restapi: RestAPISetting,
    pub linear_actuators: LinearsSetting,
}

impl Setting {
    /// The vision model settings.
    pub fn model(&self) -> (v: &VisionSetting)
        ensures
            v == self.vision,
    {
        &self.vision
    }

    /// Replaces the vision model settings.
    pub fn set_model(&mut self, model: VisionSetting)
        ensures
            *final(self) == (Setting { vision: model, ..*old(self) }),
    {
        self.vision = model;
    }

    /// The REST front end settings.
    pub fn restapi(&self) -> (v: RestAPISetting)
        ensures
            v == self.restapi,
    {
        self.restapi
    }

    /// Replaces the REST front end settings.
    pub fn set_restapi(&mut self, restapi: RestAPISetting)
        ensures
            *final(self) == (Setting { restapi, ..*old(self) }),
    {
        self.restapi = restapi;
    }

    /// The path of the settings file.
    pub fn config(&self) -> (v: String)
        ensures
            v@ == self.config_path@,
    {
        self.config_path.clone()
    }

    /// Replaces the path of the settings file.
    pub fn set_config(&mut self, config: String)
        ensures
            *final(self) == (Setting { config_path: config, ..*old(self) }),
    {
        self.config_path = config;
    }

    /// The camera settings.
    pub fn camera(&self) -> (v: &CameraSetting)
        ensures
            v == self.camera,
    {
        &self.camera
    }

    /// Replaces the camera settings.
    pub fn set_camera(&mut self, camera: CameraSetting)
        ensures
            *final(self) == (Setting { camera, ..*old(self) }),
    {
        self.camera = camera;
    }

    /// The stepper pin assignments.
    pub fn linear_actuators(&self) -> (v: &LinearsSetting)
        ensures
            v == self.linear_actuators,
    {
        &self.linear_actuators
    }

    /// Replaces the stepper pin assignments.
    pub fn set_linear_actuators(&mut self, stepper: LinearsSetting)
        ensures
            *final(self) == (Setting { linear_actuators: stepper, ..*old(self) }),
    {
        self.linear_actuators = stepper;
    }
}

} // verus!
