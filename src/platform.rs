use vstd::prelude::*;
use crate::controller::Profile;

verus! {

/// Why a device could not be located.
#[derive(Debug, Clone, PartialEq, Eq)]
pub enum PlatformError {
    /// Device enumeration itself failed; the text says at which step.
    Udev(String),
    /// Enumeration worked but found no such device.
    MissingFunction(String),
}

/// The "platform" device: GPU routing, panel overdrive, thermal policy.
#[derive(Debug, Clone, PartialEq, Eq)]
pub struct AsusPlatform {
    path: String,
    pp_path: String,
}

impl AsusPlatform {
    pub closed spec fn spec_path(&self) -> Seq<char> {
        self.path@
    }

    pub closed spec fn spec_pp_path(&self) -> Seq<char> {
        self.pp_path@
    }

    /// Takes the outcome of enumerating `platform` devices named
    /// `asus-nb-wmi`: the system path of the first one found, if any.
    pub fn new(scan: Result<Option<String>, PlatformError>) -> (r: Result<Self, PlatformError>)
        ensures
            scan matches Err(e) ==> r == Err::<Self, PlatformError>(e),
            scan matches Ok(None) ==> (r matches Err(PlatformError::MissingFunction(m)) && m@
                == "asus-nb-wmi not found"@),
            scan matches Ok(Some(p)) ==> (r matches Ok(d) && d.spec_path() == p@ && d.spec_pp_path()
                == "/sys/firmware/acpi"@),
    {
        match scan {
            Err(e) => Err(e),
            Ok(None) => Err(PlatformError::MissingFunction("asus-nb-wmi not found".to_owned())),
            Ok(Some(path)) => Ok(AsusPlatform { path, pp_path: "/sys/firmware/acpi".to_owned() }),
        }
    }

    /// The device's system path, under which its attributes sit.
    pub fn path(&self) -> (r: &String)
        ensures
            r@ == self.spec_path(),
    {
        &self.path
    }

    /// Where the ACPI `platform_profile` attribute sits.
    pub fn pp_path(&self) -> (r: &String)
        ensures
            r@ == self.spec_pp_path(),
    {
        &self.pp_path
    }
}

/// The keyboard backlight LED device.
#[derive(Debug, Clone, PartialEq, Eq)]
pub struct KeyboardLed {
    path: String,
}

impl KeyboardLed {
    pub closed spec fn spec_path(&self) -> Seq<char> {
        self.path@
    }

    /// Takes the outcome of enumerating `leds` devices named
    /// `asus::kbd_backlight`: the system path of the first one found, if any.
    pub fn new(scan: Result<Option<String>, PlatformError>) -> (r: Result<Self, PlatformError>)
        ensures
            scan matches Err(e) ==> r == Err::<Self, PlatformError>(e),
            scan matches Ok(None) ==> (r matches Err(PlatformError::MissingFunction(m)) && m@
                == "asus::kbd_backlight not found"@),
            scan matches Ok(Some(p)) ==> (r matches Ok(d) && d.spec_path() == p@),
    {
        match scan {
            Err(e) => Err(e),
            Ok(None) => Err(PlatformError::MissingFunction("asus::kbd_backlight not found".to_owned())),
            Ok(Some(path)) => Ok(KeyboardLed { path }),
        }
    }

    pub fn path(&self) -> (r: &String)
        ensures
            r@ == self.spec_path(),
    {
        &self.path
    }
}

pub open spec fn profile_name(p: Profile) -> Seq<char> {
    match p {
        Profile::Balanced => "Balanced"@,
        Profile::Performance => "Performance"@,
        Profile::Quiet => "Quiet"@,
    }
}

/// The signal that announces a profile change to every subscriber.
#[derive(Debug, Clone, PartialEq, Eq)]
pub struct OrgAsuslinuxDaemonNotifyProfile {
    pub profile: String,
}

impl OrgAsuslinuxDaemonNotifyProfile {
    pub fn for_profile(p: Profile) -> (r: Self)
        ensures
            r.profile@ == profile_name(p),
    {
        let name = match p {
            Profile::Balanced => "Balanced".to_owned(),
            Profile::Performance => "Performance".to_owned(),
            Profile::Quiet => "Quiet".to_owned(),
        };
        OrgAsuslinuxDaemonNotifyProfile { profile: name }
    }
}

} // verus!
