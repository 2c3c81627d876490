//! Video peripheral stub: a device whose registers are not modelled yet.
//! Reads return zero and writes are discarded; it exists to exercise the
//! bus's pluggable-device contract.

use vstd::prelude::*;
use crate::bus::DeviceRead;
use crate::bus::DeviceWrite;
use crate::bus::DeviceView;
use crate::bus::device_read_v;

verus! {

/// The video unit. It carries no state yet; its bus-visible behaviour is
/// all-zero reads and discarded writes.
pub struct Ppu {}

impl Ppu {
    /// A fresh video unit.
    pub fn new() -> (r: Self)
        ensures
            r == (Ppu {}),
    {
        Self {}
    }

    /// Read a register byte. Every offset reads as zero.
    pub fn read_at(&self, offset: u16) -> (r: u8)
        ensures
            r == device_read_v(DeviceView::Ppu, offset),
    {
        let _ = offset;
        0
    }

    /// Write a register byte. The write is discarded.
    pub fn write_at(&mut self, offset: u16, value: u8)
        ensures
            *final(self) == *old(self),
    {
        let _ = offset;
        let _ = value;
    }
}

impl DeviceRead for Ppu {
    fn device_read(&self, offset: u16) -> u8 {
        self.read_at(offset)
    }
}

impl DeviceWrite for Ppu {
    fn device_write(&mut self, offset: u16, value: u8) {
        self.write_at(offset, value)
    }
}

} // verus!
