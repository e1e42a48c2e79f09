//! Connecting a platform description to a data link: the ISO-TP options it
//! implies and the workflows it supports.
use vstd::prelude::*;
use crate::can::CanInterface;
use crate::datalog::UdsLogger;
use crate::definition::{DownloadMode, FlashMode, LogMode, Main};
use crate::download::Mazda1Downloader;
use crate::flash::Mazda1Flasher;
use crate::isotp::Options;
use crate::transport::IsotpCan;
use crate::uds::{UdsInterface, UdsIsotp};
use std::rc::Rc;

verus! {

/// Budget for each wait on the ECU, in microseconds.
pub const LINK_TIMEOUT_US: u64 = 1_000_000;

/// A vehicle interface that can open CAN channels.
pub trait DataLink {
    type Can: CanInterface;

    /// Opens a CAN channel at `baudrate`, if the device supports it.
    fn can(&self, baudrate: usize) -> Option<Self::Can>;
}

/// A SocketCAN-style link: one shared CAN port whose bit rate is set
/// outside the program.
pub struct SocketCanDataLink<C: CanInterface> {
    interface: Rc<C>,
}

impl<C: CanInterface> SocketCanDataLink<C> {
    pub fn new(interface: Rc<C>) -> (r: SocketCanDataLink<C>)
        ensures
            r.interface() == interface,
    {
        SocketCanDataLink { interface }
    }

    pub closed spec fn interface(&self) -> Rc<C> {
        self.interface
    }
}

impl<C: CanInterface> DataLink for SocketCanDataLink<C> {
    type Can = Rc<C>;

    /// Hands out the shared port; the bit rate is not ours to set.
    fn can(&self, baudrate: usize) -> Option<Rc<C>> {
        Some(self.interface.clone())
    }
}

/// A data link together with the platform it talks to.
pub struct PlatformLink<L: DataLink> {
    pub link: L,
    pub platform: Main,
}

impl<L: DataLink> PlatformLink<L> {
    pub fn new(link: L, platform: Main) -> (r: PlatformLink<L>)
        ensures
            r.link == link,
            r.platform == platform,
    {
        PlatformLink { link, platform }
    }

    /// The ISO-TP options for the platform: requests go to the server id,
    /// replies come on the server id plus 8.
    pub fn isotp_options(&self) -> (r: Options)
        ensures
            r.source_id == self.platform.transfer.server_id,
            r.dest_id == self.platform.transfer.server_id + 8,
            r.timeout_us == LINK_TIMEOUT_US,
    {
        Options::for_server(self.platform.transfer.server_id, LINK_TIMEOUT_US)
    }

    /// An ISO-TP transport for the platform, if the link opens a channel.
    pub fn isotp(&self) -> (r: Option<IsotpCan<L::Can>>)
        ensures
            r matches Some(t) ==> t.options == self.isotp_options_spec(),
    {
        match self.link.can(self.platform.baudrate as usize) {
            Some(can) => Some(IsotpCan::new(can, self.isotp_options())),
            None => None,
        }
    }

    pub open spec fn isotp_options_spec(&self) -> Options {
        Options {
            source_id: self.platform.transfer.server_id as u32,
            dest_id: (self.platform.transfer.server_id + 8) as u32,
            timeout_us: LINK_TIMEOUT_US,
        }
    }

    /// A UDS client for the platform, if the link opens a channel.
    pub fn uds(&self) -> (r: Option<UdsIsotp<IsotpCan<L::Can>>>)
        ensures
            r matches Some(u) ==> u.interface.options == self.isotp_options_spec(),
    {
        match self.isotp() {
            Some(t) => Some(UdsIsotp::with_timeout(t, LINK_TIMEOUT_US)),
            None => None,
        }
    }

    /// The downloader that the platform calls for, on the client `uds`.
    pub fn downloader_with<U: UdsInterface>(&self, uds: U) -> (r: Option<Mazda1Downloader<U>>)
        ensures
            (r is Some) == (self.platform.transfer.download_mode == DownloadMode::Mazda1),
            r matches Some(d) ==> d.download_size() == self.platform.rom_size && d.key()@
                == self.platform.transfer.key@,
    {
        match self.platform.transfer.download_mode {
            DownloadMode::Mazda1 => Some(
                Mazda1Downloader::new(uds, self.platform.transfer.key.as_str(), self.platform.rom_size),
            ),
            DownloadMode::Disabled => None,
        }
    }

    /// The flasher that the platform calls for, on the client `uds`.
    pub fn flasher_with<U: UdsInterface>(&self, uds: U) -> (r: Option<Mazda1Flasher<U>>)
        ensures
            (r is Some) == (self.platform.transfer.flash_mode == FlashMode::Mazda1),
            r matches Some(f) ==> f.key()@ == self.platform.transfer.key@,
    {
        match self.platform.transfer.flash_mode {
            FlashMode::Mazda1 => Some(Mazda1Flasher::new(uds, self.platform.transfer.key.as_str())),
            FlashMode::Disabled => None,
        }
    }

    /// The datalogger that the platform calls for, on the client `uds`.
    pub fn datalogger_with<U: UdsInterface>(&self, uds: U) -> (r: Option<UdsLogger<U>>)
        ensures
            (r is Some) == (self.platform.log_mode == LogMode::Uds),
            r matches Some(l) ==> !l.running() && l.entries().len() == 0,
    {
        match self.platform.log_mode {
            LogMode::Uds => Some(UdsLogger::new(uds)),
            LogMode::Disabled => None,
        }
    }

    /// The downloader for the platform, if both the platform and the link support one.
    pub fn downloader(&self) -> (r: Option<Mazda1Downloader<UdsIsotp<IsotpCan<L::Can>>>>)
        ensures
            r is Some ==> self.platform.transfer.download_mode == DownloadMode::Mazda1,
            r matches Some(d) ==> d.download_size() == self.platform.rom_size,
    {
        if self.platform.transfer.download_mode == DownloadMode::Disabled {
            return None;
        }
        match self.uds() {
            Some(u) => self.downloader_with(u),
            None => None,
        }
    }

    /// The flasher for the platform, if both the platform and the link support one.
    pub fn flasher(&self) -> (r: Option<Mazda1Flasher<UdsIsotp<IsotpCan<L::Can>>>>)
        ensures
            r is Some ==> self.platform.transfer.flash_mode == FlashMode::Mazda1,
    {
        if self.platform.transfer.flash_mode == FlashMode::Disabled {
            return None;
        }
        match self.uds() {
            Some(u) => self.flasher_with(u),
            None => None,
        }
    }

    /// The datalogger for the platform, if both the platform and the link support one.
    pub fn datalogger(&self) -> (r: Option<UdsLogger<UdsIsotp<IsotpCan<L::Can>>>>)
        ensures
            r is Some ==> self.platform.log_mode == LogMode::Uds,
            r matches Some(l) ==> !l.running() && l.entries().len() == 0,
    {
        if self.platform.log_mode == LogMode::Disabled {
            return None;
        }
        match self.uds() {
            Some(u) => self.datalogger_with(u),
            None => None,
        }
    }
}

} // verus!
