//! The device monitor as the stream holds it, and what the monitor reports.

use vstd::prelude::*;

verus! {

/// The error of `std::io`, declared so that a failed set-up step can be
/// handed in. Nothing is claimed of it.
#[verifier::external_type_specification]
#[verifier::external_body]
pub struct ExIoError(std::io::Error);

/// The device monitor of a stream: the source of hot-plug notifications,
/// set up to report the devices of the input class.
pub struct Context<M> {
    udev: M,
}

impl<M> View for Context<M> {
    type V = M;

    closed spec fn view(&self) -> M {
        self.udev
    }
}

impl<M> Context<M> {
    /// Wraps a monitor that receives notifications.
    pub fn new(udev: M) -> (context: Context<M>)
        ensures
            context@ == udev,
    {
        Context { udev }
    }

    /// The monitor, to ask it whether it can be read.
    pub fn get_ref(&self) -> (udev: &M)
        ensures
            *udev == self@,
    {
        &self.udev
    }

    /// The monitor, to receive from it.
    pub fn get_mut(&mut self) -> (udev: &mut M)
        ensures
            *udev == old(self)@,
            final(self)@ == *final(udev),
    {
        &mut self.udev
    }
}

/// The class of devices that a stream multiplexes: `input`.
pub open spec fn input_class() -> Seq<u8> {
    seq![0x69u8, 0x6eu8, 0x70u8, 0x75u8, 0x74u8]
}

/// The class of devices that the monitor is to report, and of which the
/// devices that are present are asked for.
pub fn subsystem() -> (class: Vec<u8>)
    ensures
        class@ == input_class(),
{
    vec![0x69, 0x6e, 0x70, 0x75, 0x74]
}

/// What the monitor knows of one device: what happened to it, its short
/// name, and the path of its node where it has one.
#[derive(Debug, PartialEq, Eq)]
pub struct DeviceInfo {
    /// What happened: `add`, `remove`, or something else. Empty for a device
    /// that is merely present.
    pub action: Vec<u8>,
    /// The short name of the device, by which it is known while it exists.
    pub sysname: Vec<u8>,
    /// The path of the node through which the device is read.
    pub devnode: Option<Vec<u8>>,
}

/// What a `DeviceInfo` says, as plain sequences of bytes.
pub struct DeviceInfoView {
    pub action: Seq<u8>,
    pub sysname: Seq<u8>,
    pub devnode: Option<Seq<u8>>,
}

impl View for DeviceInfo {
    type V = DeviceInfoView;

    open spec fn view(&self) -> DeviceInfoView {
        DeviceInfoView {
            action: self.action@,
            sysname: self.sysname@,
            devnode: match self.devnode {
                Some(node) => Some(node@),
                None => None,
            },
        }
    }
}

impl Clone for DeviceInfo {
    fn clone(&self) -> (info: DeviceInfo)
        ensures
            info@ == self@,
    {
        DeviceInfo {
            action: self.action.clone(),
            sysname: self.sysname.clone(),
            devnode: match &self.devnode {
                Some(node) => Some(node.clone()),
                None => None,
            },
        }
    }
}

/// The action of a notification that a device was plugged in: `add`.
pub open spec fn add_action() -> Seq<u8> {
    seq![0x61u8, 0x64u8, 0x64u8]
}

/// The action of a notification that a device went away: `remove`.
pub open spec fn remove_action() -> Seq<u8> {
    seq![0x72u8, 0x65u8, 0x6du8, 0x6fu8, 0x76u8, 0x65u8]
}

/// Whether `action` announces a device that was plugged in.
pub fn is_add(action: &Vec<u8>) -> (add: bool)
    ensures
        add == (action@ == add_action()),
{
    let add = action.len() == 3 && action[0] == 0x61 && action[1] == 0x64 && action[2] == 0x64;
    proof {
        if add {
            assert(action@ =~= add_action());
        }
    }
    add
}

/// Whether `action` announces a device that went away.
pub fn is_remove(action: &Vec<u8>) -> (remove: bool)
    ensures
        remove == (action@ == remove_action()),
{
    let remove = action.len() == 6 && action[0] == 0x72 && action[1] == 0x65 && action[2] == 0x6d
        && action[3] == 0x6f && action[4] == 0x76 && action[5] == 0x65;
    proof {
        if remove {
            assert(action@ =~= remove_action());
        }
    }
    remove
}

/// The words in which an I/O error describes itself: what
/// `std::string::ToString::to_string` gives for it. Nothing is claimed of
/// them.
#[verifier::external_body]
fn description(error: &std::io::Error) -> (message: String) {
    error.to_string()
}

/// Turns the error of a failed set-up step into its description.
pub fn from_result<T>(x: Result<T, std::io::Error>) -> (result: Result<T, String>)
    ensures
        match x {
            Ok(value) => result == Ok::<T, String>(value),
            Err(_) => result is Err,
        },
{
    match x {
        Ok(value) => Ok(value),
        Err(error) => Err(description(&error)),
    }
}

} // verus!
