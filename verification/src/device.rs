//! Telling whether the default output moved away from a sink.
//!
//! A device that is removed is reported. The far more common loss is not: the
//! system makes another device its default, and the stream stays bound to one
//! that nobody is listening to. So the name of the device a sink was opened on is
//! compared with the name of the current default. Reading that name lists all
//! devices, so one read answers for
//! [`DEVICE_CHECK_INTERVAL`](crate::DEVICE_CHECK_INTERVAL).
use vstd::prelude::*;

use crate::error::PlayerError;
use crate::limits::{elapsed, time_since, DEVICE_CHECK_INTERVAL};
use crate::sink::text_view;

verus! {

/// What is known of the device of a sink without reading the default output.
#[derive(Debug)]
pub enum DeviceProbe {
    /// Whether the sink lost its device.
    Known { lost: bool },
    /// Only the name of the current default can tell; it is to be compared with
    /// the name the sink was opened on.
    ReadDefault { opened: String },
}

/// Whether a call that waits on the audio thread may be made.
#[derive(Debug)]
pub enum Admission<T> {
    /// No loss is known and no read is due; this is the call.
    Granted { value: T },
    /// The device is known to be gone.
    Refused { error: PlayerError },
    /// The default output is to be read first and compared with this name, and then
    /// the call is to be asked for again.
    ReadDefault { opened: String },
}

/// One read of the default output, and the name that it was compared with.
#[verifier::ext_equal]
pub struct DeviceCheckView {
    pub checked_at: u128,
    pub opened: Seq<char>,
    pub moved: bool,
}

impl DeviceCheckView {
    /// Whether this read still answers for a sink opened on `opened`.
    pub open spec fn answers(self, opened: Seq<char>, now: u128) -> bool {
        &&& self.opened == opened
        &&& elapsed(self.checked_at, now) < DEVICE_CHECK_INTERVAL
    }
}

/// Whether the default output is no longer the device named `opened`. A name that
/// could not be read means "cannot tell", never "changed": in the middle of a
/// switch there is briefly no default device at all.
pub open spec fn default_moved(opened: Seq<char>, current: Option<Seq<char>>) -> bool {
    current matches Some(name) && name != opened
}

pub(crate) struct DeviceCheck {
    pub(crate) checked_at: u128,
    pub(crate) opened: String,
    pub(crate) moved: bool,
}

impl View for DeviceCheck {
    type V = DeviceCheckView;

    open(crate) spec fn view(&self) -> DeviceCheckView {
        DeviceCheckView { checked_at: self.checked_at, opened: self.opened@, moved: self.moved }
    }
}

/// The view of an optional read.
pub(crate) open(crate) spec fn check_view(check: Option<DeviceCheck>) -> Option<DeviceCheckView> {
    match check {
        Some(c) => Some(c@),
        None => None,
    }
}

impl DeviceCheck {
    /// Compares the name of the current default with the one a sink was opened on.
    pub(crate) fn compare_names(
        opened: String,
        current: &Option<String>,
        now: u128,
    ) -> (check: Self)
        ensures
            check@ == (DeviceCheckView {
                checked_at: now,
                opened: opened@,
                moved: default_moved(opened@, text_view(*current)),
            }),
    {
        let moved = match current {
            Some(name) => !(*name == opened),
            None => false,
        };
        DeviceCheck { checked_at: now, opened, moved }
    }

    pub(crate) fn still_answers(&self, opened: &String, now: u128) -> (fresh: bool)
        ensures
            fresh == self@.answers(opened@, now),
    {
        self.opened == *opened && time_since(self.checked_at, now) < DEVICE_CHECK_INTERVAL
    }
}

} // verus!
