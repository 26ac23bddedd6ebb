//! ESP-NOW is a kind of connectionless Wi-Fi communication protocol that is
//! defined by Espressif.
//!
//! In ESP-NOW, application data is encapsulated in a vendor-specific action
//! frame and then transmitted from one Wi-Fi device to another without
//! connection.
//!
//! This module holds what the driver decides: how the status codes of the
//! radio firmware are read, how a peer is handed to it and read back, what
//! the queue of received packets keeps, and when a send has finished.

use std::collections::VecDeque;
use vstd::prelude::*;
use vstd::std_specs::convert::FromSpecImpl;

verus! {

/// The number of received packets that are kept for the user.
pub const RECEIVE_QUEUE_SIZE: usize = 10;

/// Maximum payload length
pub const ESP_NOW_MAX_DATA_LEN: usize = 250;

/// Broadcast address
pub const BROADCAST_ADDRESS: [u8; 6] = [0xffu8, 0xffu8, 0xffu8, 0xffu8, 0xffu8, 0xffu8];

/// The station interface, as the radio firmware numbers it.
pub const WIFI_IF_STA: u32 = 0;

/// The access point interface, as the radio firmware numbers it.
pub const WIFI_IF_AP: u32 = 1;

/// The status with which the radio firmware reports a send that succeeded.
pub const ESP_NOW_SEND_SUCCESS: u32 = 0;

/// Internal errors that can occur with ESP-NOW.
#[derive(Debug, Clone, Copy, PartialEq, Eq, Structural)]
pub enum Error {
    /// ESP-NOW is not initialized.
    NotInitialized,
    /// Invalid argument.
    InvalidArgument,
    /// Indicates that there was insufficient memory to complete the operation.
    OutOfMemory,
    /// ESP-NOW peer list is full.
    PeerListFull,
    /// ESP-NOW peer is not found.
    NotFound,
    /// Internal error.
    Internal,
    /// ESP-NOW peer already exists.
    PeerExists,
    /// The Wi-Fi interface used for ESP-NOW doesn't match the expected one for the peer.
    InterfaceMismatch,
    /// Represents any other error not covered by the above variants, with an
    /// associated error code.
    Other(u32),
}

impl Error {
    /// The error that the status code `code` stands for.
    pub open spec fn spec_from_code(code: u32) -> Error {
        if code == 12389 {
            Error::NotInitialized
        } else if code == 12390 {
            Error::InvalidArgument
        } else if code == 12391 {
            Error::OutOfMemory
        } else if code == 12392 {
            Error::PeerListFull
        } else if code == 12393 {
            Error::NotFound
        } else if code == 12394 {
            Error::Internal
        } else if code == 12395 {
            Error::PeerExists
        } else if code == 12396 {
            Error::InterfaceMismatch
        } else {
            Error::Other(code)
        }
    }

    /// The error that the status code `code` stands for.
    pub fn from_code(code: u32) -> (error: Error)
        ensures
            error == Error::spec_from_code(code),
    {
        match code {
            12389 => Error::NotInitialized,
            12390 => Error::InvalidArgument,
            12391 => Error::OutOfMemory,
            12392 => Error::PeerListFull,
            12393 => Error::NotFound,
            12394 => Error::Internal,
            12395 => Error::PeerExists,
            12396 => Error::InterfaceMismatch,
            _ => Error::Other(code),
        }
    }
}

/// Errors of the Wi-Fi driver below ESP-NOW.
#[derive(Debug, Clone, Copy, PartialEq, Eq, Structural)]
pub enum WifiError {
    /// The driver was not initialized.
    NotInitialized,
    /// The radio firmware reported the given status code.
    InternalError(i32),
    /// The device disconnected from the network or failed to connect to it.
    Disconnected,
    /// Unknown Wi-Fi mode (not Sta/Ap/ApSta).
    UnknownWifiMode,
    /// Unsupported operation or mode.
    Unsupported,
}

/// Common errors that can occur while using ESP-NOW driver.
#[derive(Debug, Clone, Copy, PartialEq, Eq, Structural)]
pub enum EspNowError {
    /// Internal Error.
    Error(Error),
    /// Failed to send an ESP-NOW message.
    SendFailed,
    /// Attempt to create `EspNow` instance twice.
    DuplicateInstance,
    /// Initialization error
    Initialization(WifiError),
}

impl From<WifiError> for EspNowError {
    fn from(f: WifiError) -> (error: Self) {
        Self::Initialization(f)
    }
}

impl FromSpecImpl<WifiError> for EspNowError {
    open spec fn obeys_from_spec() -> bool {
        true
    }

    open spec fn from_spec(f: WifiError) -> Self {
        EspNowError::Initialization(f)
    }
}

/// What the status code `code` of the radio firmware means: success for 0,
/// else the error that the code, read as unsigned, stands for.
pub open spec fn spec_check_error(code: i32) -> Result<(), EspNowError> {
    if code == 0 {
        Ok(())
    } else {
        Err(EspNowError::Error(Error::spec_from_code(code as u32)))
    }
}

/// Reads a status code of the radio firmware.
pub fn check_error(code: i32) -> (checked: Result<(), EspNowError>)
    ensures
        checked == spec_check_error(code),
{
    match code {
        0 => Ok(()),
        res => Err(EspNowError::Error(Error::from_code(res as u32))),
    }
}

/// Holds the count of peers in an ESP-NOW communication context.
#[derive(Debug, Clone, Copy, PartialEq, Eq, Structural)]
pub struct PeerCount {
    /// The total number of peers.
    pub total_count: i32,
    /// The number of encrypted peers.
    pub encrypted_count: i32,
}

/// The peer count that the radio firmware reported with status `code`.
pub fn peer_count(code: i32, total_num: i32, encrypt_num: i32) -> (count: Result<
    PeerCount,
    EspNowError,
>)
    ensures
        count == (match spec_check_error(code) {
            Ok(_) => Ok::<PeerCount, EspNowError>(
                PeerCount { total_count: total_num, encrypted_count: encrypt_num },
            ),
            Err(e) => Err::<PeerCount, EspNowError>(e),
        }),
{
    check_error(code)?;

    Ok(PeerCount { total_count: total_num, encrypted_count: encrypt_num })
}

/// ESP-NOW rate of specified interface.
#[derive(Debug, Clone, Copy, PartialEq, Eq, Structural)]
pub enum WifiPhyRate {
    /// < 1 Mbps with long preamble
    Rate1mL,
    /// < 2 Mbps with long preamble
    Rate2m,
    /// < 5.5 Mbps with long preamble
    Rate5mL,
    /// < 11 Mbps with long preamble
    Rate11mL,
    /// < 2 Mbps with short preamble
    Rate2mS,
    /// < 5.5 Mbps with short preamble
    Rate5mS,
    /// < 11 Mbps with short preamble
    Rate11mS,
    /// < 48 Mbps
    Rate48m,
    /// < 24 Mbps
    Rate24m,
    /// < 12 Mbps
    Rate12m,
    /// < 6 Mbps
    Rate6m,
    /// < 54 Mbps
    Rate54m,
    /// < 36 Mbps
    Rate36m,
    /// < 18 Mbps
    Rate18m,
    /// < 9 Mbps
    Rate9m,
    /// < MCS0 with long GI, 6.5 Mbps for 20MHz, 13.5 Mbps for 40MHz
    RateMcs0Lgi,
    /// < MCS1 with long GI, 13 Mbps for 20MHz, 27 Mbps for 40MHz
    RateMcs1Lgi,
    /// < MCS2 with long GI, 19.5 Mbps for 20MHz, 40.5 Mbps for 40MHz
    RateMcs2Lgi,
    /// < MCS3 with long GI, 26 Mbps for 20MHz, 54 Mbps for 40MHz
    RateMcs3Lgi,
    /// < MCS4 with long GI, 39 Mbps for 20MHz, 81 Mbps for 40MHz
    RateMcs4Lgi,
    /// < MCS5 with long GI, 52 Mbps for 20MHz, 108 Mbps for 40MHz
    RateMcs5Lgi,
    /// < MCS6 with long GI, 58.5 Mbps for 20MHz, 121.5 Mbps for 40MHz
    RateMcs6Lgi,
    /// < MCS7 with long GI, 65 Mbps for 20MHz, 135 Mbps for 40MHz
    RateMcs7Lgi,
    /// < MCS0 with short GI, 7.2 Mbps for 20MHz, 15 Mbps for 40MHz
    RateMcs0Sgi,
    /// < MCS1 with short GI, 14.4 Mbps for 20MHz, 30 Mbps for 40MHz
    RateMcs1Sgi,
    /// < MCS2 with short GI, 21.7 Mbps for 20MHz, 45 Mbps for 40MHz
    RateMcs2Sgi,
    /// < MCS3 with short GI, 28.9 Mbps for 20MHz, 60 Mbps for 40MHz
    RateMcs3Sgi,
    /// < MCS4 with short GI, 43.3 Mbps for 20MHz, 90 Mbps for 40MHz
    RateMcs4Sgi,
    /// < MCS5 with short GI, 57.8 Mbps for 20MHz, 120 Mbps for 40MHz
    RateMcs5Sgi,
    /// < MCS6 with short GI, 65 Mbps for 20MHz, 135 Mbps for 40MHz
    RateMcs6Sgi,
    /// < MCS7 with short GI, 72.2 Mbps for 20MHz, 150 Mbps for 40MHz
    RateMcs7Sgi,
    /// < 250 Kbps
    RateLora250k,
    /// < 500 Kbps
    RateLora500k,
    /// Max
    RateMax,
}

impl WifiPhyRate {
    /// The number by which the radio firmware knows the rate: its place
    /// among the rates, from 0.
    pub open spec fn spec_number(self) -> u32 {
        match self {
            WifiPhyRate::Rate1mL => 0,
            WifiPhyRate::Rate2m => 1,
            WifiPhyRate::Rate5mL => 2,
            WifiPhyRate::Rate11mL => 3,
            WifiPhyRate::Rate2mS => 4,
            WifiPhyRate::Rate5mS => 5,
            WifiPhyRate::Rate11mS => 6,
            WifiPhyRate::Rate48m => 7,
            WifiPhyRate::Rate24m => 8,
            WifiPhyRate::Rate12m => 9,
            WifiPhyRate::Rate6m => 10,
            WifiPhyRate::Rate54m => 11,
            WifiPhyRate::Rate36m => 12,
            WifiPhyRate::Rate18m => 13,
            WifiPhyRate::Rate9m => 14,
            WifiPhyRate::RateMcs0Lgi => 15,
            WifiPhyRate::RateMcs1Lgi => 16,
            WifiPhyRate::RateMcs2Lgi => 17,
            WifiPhyRate::RateMcs3Lgi => 18,
            WifiPhyRate::RateMcs4Lgi => 19,
            WifiPhyRate::RateMcs5Lgi => 20,
            WifiPhyRate::RateMcs6Lgi => 21,
            WifiPhyRate::RateMcs7Lgi => 22,
            WifiPhyRate::RateMcs0Sgi => 23,
            WifiPhyRate::RateMcs1Sgi => 24,
            WifiPhyRate::RateMcs2Sgi => 25,
            WifiPhyRate::RateMcs3Sgi => 26,
            WifiPhyRate::RateMcs4Sgi => 27,
            WifiPhyRate::RateMcs5Sgi => 28,
            WifiPhyRate::RateMcs6Sgi => 29,
            WifiPhyRate::RateMcs7Sgi => 30,
            WifiPhyRate::RateLora250k => 31,
            WifiPhyRate::RateLora500k => 32,
            WifiPhyRate::RateMax => 33,
        }
    }

    /// The number by which the radio firmware knows the rate.
    pub fn number(self) -> (number: u32)
        ensures
            number == self.spec_number(),
    {
        match self {
            WifiPhyRate::Rate1mL => 0,
            WifiPhyRate::Rate2m => 1,
            WifiPhyRate::Rate5mL => 2,
            WifiPhyRate::Rate11mL => 3,
            WifiPhyRate::Rate2mS => 4,
            WifiPhyRate::Rate5mS => 5,
            WifiPhyRate::Rate11mS => 6,
            WifiPhyRate::Rate48m => 7,
            WifiPhyRate::Rate24m => 8,
            WifiPhyRate::Rate12m => 9,
            WifiPhyRate::Rate6m => 10,
            WifiPhyRate::Rate54m => 11,
            WifiPhyRate::Rate36m => 12,
            WifiPhyRate::Rate18m => 13,
            WifiPhyRate::Rate9m => 14,
            WifiPhyRate::RateMcs0Lgi => 15,
            WifiPhyRate::RateMcs1Lgi => 16,
            WifiPhyRate::RateMcs2Lgi => 17,
            WifiPhyRate::RateMcs3Lgi => 18,
            WifiPhyRate::RateMcs4Lgi => 19,
            WifiPhyRate::RateMcs5Lgi => 20,
            WifiPhyRate::RateMcs6Lgi => 21,
            WifiPhyRate::RateMcs7Lgi => 22,
            WifiPhyRate::RateMcs0Sgi => 23,
            WifiPhyRate::RateMcs1Sgi => 24,
            WifiPhyRate::RateMcs2Sgi => 25,
            WifiPhyRate::RateMcs3Sgi => 26,
            WifiPhyRate::RateMcs4Sgi => 27,
            WifiPhyRate::RateMcs5Sgi => 28,
            WifiPhyRate::RateMcs6Sgi => 29,
            WifiPhyRate::RateMcs7Sgi => 30,
            WifiPhyRate::RateLora250k => 31,
            WifiPhyRate::RateLora500k => 32,
            WifiPhyRate::RateMax => 33,
        }
    }
}

/// The interface to use for this peer
#[derive(Debug, Clone, Copy, PartialEq, Eq, Structural)]
pub enum EspNowWifiInterface {
    /// Use the AP interface
    Ap,
    /// Use the STA interface
    Sta,
}

impl EspNowWifiInterface {
    /// The number by which the radio firmware knows the interface.
    pub open spec fn spec_as_wifi_interface(self) -> u32 {
        match self {
            EspNowWifiInterface::Ap => WIFI_IF_AP,
            EspNowWifiInterface::Sta => WIFI_IF_STA,
        }
    }

    /// The number by which the radio firmware knows the interface.
    pub fn as_wifi_interface(&self) -> (interface: u32)
        ensures
            interface == self.spec_as_wifi_interface(),
    {
        match self {
            EspNowWifiInterface::Ap => WIFI_IF_AP,
            EspNowWifiInterface::Sta => WIFI_IF_STA,
        }
    }

    /// The interface that the radio firmware knows by the number
    /// `interface`, which is that of the access point or of the station.
    pub fn from_wifi_interface(interface: u32) -> (this: Self)
        requires
            interface == WIFI_IF_AP || interface == WIFI_IF_STA,
        ensures
            this.spec_as_wifi_interface() == interface,
    {
        if interface == WIFI_IF_AP {
            EspNowWifiInterface::Ap
        } else {
            EspNowWifiInterface::Sta
        }
    }
}

/// ESP-NOW peer information parameters.
#[derive(Debug, Clone, Copy)]
pub struct PeerInfo {
    /// Interface to use
    pub interface: EspNowWifiInterface,
    /// ESP-NOW peer MAC address that is also the MAC address of station or
    /// softap.
    pub peer_address: [u8; 6],
    /// ESP-NOW peer local master key that is used to encrypt data.
    pub lmk: Option<[u8; 16]>,
    /// Wi-Fi channel that peer uses to send/receive ESP-NOW data.
    pub channel: Option<u8>,
    /// Whether the data sent/received by this peer is encrypted.
    pub encrypt: bool,
}

/// A peer as the radio firmware holds it.
#[derive(Debug, Clone, Copy)]
pub struct RawPeerInfo {
    /// The MAC address of the peer.
    pub peer_addr: [u8; 6],
    /// The local master key; zeros for none.
    pub lmk: [u8; 16],
    /// The channel; 0 for the current one.
    pub channel: u8,
    /// The number of the interface.
    pub ifidx: u32,
    /// Whether the data of this peer is encrypted.
    pub encrypt: bool,
}

impl PeerInfo {
    /// The peer as the radio firmware takes it: no key is a key of zeros,
    /// no channel is channel 0.
    pub fn to_raw(&self) -> (raw: RawPeerInfo)
        ensures
            raw.peer_addr == self.peer_address,
            raw.lmk@ == (match self.lmk {
                Some(key) => key@,
                None => Seq::new(16, |i: int| 0u8),
            }),
            raw.channel == (match self.channel {
                Some(c) => c,
                None => 0u8,
            }),
            raw.ifidx == self.interface.spec_as_wifi_interface(),
            raw.encrypt == self.encrypt,
    {
        let lmk: [u8; 16] = match self.lmk {
            Some(key) => key,
            None => {
                let zeros = [0u8;16];
                assert(zeros@ =~= Seq::new(16, |i: int| 0u8));
                zeros
            },
        };
        let channel: u8 = match self.channel {
            Some(c) => c,
            None => 0,
        };
        RawPeerInfo {
            peer_addr: self.peer_address,
            lmk,
            channel,
            ifidx: self.interface.as_wifi_interface(),
            encrypt: self.encrypt,
        }
    }

    /// The peer that the radio firmware reported with status `code`: its
    /// key is always given, its channel unless it is 0.
    pub fn from_raw(code: i32, raw: &RawPeerInfo) -> (peer: Result<PeerInfo, EspNowError>)
        requires
            code == 0 ==> raw.ifidx == WIFI_IF_AP || raw.ifidx == WIFI_IF_STA,
        ensures
            spec_check_error(code) is Ok <==> peer is Ok,
            peer matches Err(e) ==> spec_check_error(code) == Err::<(), EspNowError>(e),
            peer matches Ok(p) ==> {
                &&& p.interface.spec_as_wifi_interface() == raw.ifidx
                &&& p.peer_address == raw.peer_addr
                &&& p.lmk == Some(raw.lmk)
                &&& p.channel == (if raw.channel != 0 {
                    Some(raw.channel)
                } else {
                    None
                })
                &&& p.encrypt == raw.encrypt
            },
    {
        check_error(code)?;

        Ok(
            PeerInfo {
                interface: EspNowWifiInterface::from_wifi_interface(raw.ifidx),
                peer_address: raw.peer_addr,
                lmk: Some(raw.lmk),
                channel: if raw.channel != 0 {
                    Some(raw.channel)
                } else {
                    None
                },
                encrypt: raw.encrypt,
            },
        )
    }
}

/// What the radio reports of a received frame.
#[derive(Debug, Clone, Copy, PartialEq, Eq, Structural)]
pub struct RxControlInfo {
    /// Received signal strength in dBm.
    pub rssi: i32,
    /// The rate of the frame.
    pub rate: u32,
    /// The channel on which the frame was received.
    pub channel: u32,
    /// The local time in microseconds at which the frame was received.
    pub timestamp: u32,
    /// The length of the frame.
    pub sig_len: u32,
}

/// Information about a received packet.
#[derive(Debug, Clone, Copy)]
pub struct ReceiveInfo {
    /// The source address of the received packet.
    pub src_address: [u8; 6],
    /// The destination address of the received packet.
    pub dst_address: [u8; 6],
    /// Rx control info of ESP-NOW packet.
    pub rx_control: RxControlInfo,
}

/// Stores information about the received data, including the packet content and
/// associated information.
#[derive(Debug)]
pub struct ReceivedData {
    data: Vec<u8>,
    /// Where the packet came from and how it was received.
    pub info: ReceiveInfo,
}

impl ReceivedData {
    /// The payload.
    pub closed spec fn payload(&self) -> Seq<u8> {
        self.data@
    }

    /// Where the packet came from and how it was received.
    pub closed spec fn spec_info(&self) -> ReceiveInfo {
        self.info
    }

    /// A received packet with the payload `data`.
    pub fn new(data: Vec<u8>, info: ReceiveInfo) -> (received: ReceivedData)
        ensures
            received.payload() == data@,
            received.spec_info() == info,
    {
        ReceivedData { data, info }
    }

    /// Returns the received payload.
    pub fn data(&self) -> (data: &[u8])
        ensures
            data@ == self.payload(),
    {
        self.data.as_slice()
    }
}

/// Stores received packets until dequeued by the user: the last
/// [`RECEIVE_QUEUE_SIZE`] of them, oldest first.
pub struct ReceiveQueue {
    queue: VecDeque<ReceivedData>,
}

impl View for ReceiveQueue {
    type V = Seq<ReceivedData>;

    closed spec fn view(&self) -> Seq<ReceivedData> {
        self.queue@
    }
}

impl ReceiveQueue {
    /// The queue holds no more than it keeps.
    pub open spec fn wf(&self) -> bool {
        self@.len() <= RECEIVE_QUEUE_SIZE
    }

    /// An empty queue.
    pub fn new() -> (queue: ReceiveQueue)
        ensures
            queue.wf(),
            queue@.len() == 0,
    {
        ReceiveQueue { queue: VecDeque::new() }
    }

    /// The number of packets that wait.
    pub fn len(&self) -> (len: usize)
        ensures
            len == self@.len(),
    {
        self.queue.len()
    }

    /// Takes a packet in as the radio hands it over. A full queue drops its
    /// oldest packet for it.
    pub fn push(&mut self, data: ReceivedData)
        requires
            old(self).wf(),
        ensures
            final(self).wf(),
            final(self)@ == (if old(self)@.len() >= RECEIVE_QUEUE_SIZE {
                old(self)@.drop_first().push(data)
            } else {
                old(self)@.push(data)
            }),
    {
        if self.queue.len() >= RECEIVE_QUEUE_SIZE {
            let _ = self.queue.pop_front();
        }
        self.queue.push_back(data);
    }

    /// Receives data from the ESP-NOW queue: the oldest packet, if any
    /// waits.
    pub fn receive(&mut self) -> (data: Option<ReceivedData>)
        requires
            old(self).wf(),
        ensures
            final(self).wf(),
            old(self)@.len() > 0 <==> data is Some,
            data matches Some(d) ==> d == old(self)@[0] && final(self)@ == old(self)@.drop_first(),
            data is None ==> final(self)@ == old(self)@,
    {
        self.queue.pop_front()
    }
}

/// How far a send has come: whether the radio has reported on it, and what.
#[derive(Debug, Clone, Copy, PartialEq, Eq, Structural)]
pub struct SendState {
    /// This flag indicates whether the send callback has been called after a
    /// sending.
    pub cb_invoked: bool,
    /// Status of esp now send, true for success, false for failure
    pub status: bool,
}

/// What polling a send tells.
#[derive(Debug, Clone, Copy, PartialEq, Eq)]
pub enum SendPoll {
    /// The radio has not reported yet.
    Pending,
    /// The send has finished, with this result.
    Ready(Result<(), EspNowError>),
}

impl SendState {
    /// What a finished send resulted in.
    pub open spec fn spec_result(self) -> Result<(), EspNowError> {
        if self.status {
            Ok(())
        } else {
            Err(EspNowError::SendFailed)
        }
    }

    /// What polling tells of a send that was handed to the radio.
    pub open spec fn spec_poll(self) -> SendPoll {
        if !self.cb_invoked {
            SendPoll::Pending
        } else {
            SendPoll::Ready(self.spec_result())
        }
    }

    /// The state before any send: none failed.
    pub fn new() -> (state: SendState)
        ensures
            state == (SendState { cb_invoked: false, status: true }),
    {
        SendState { cb_invoked: false, status: true }
    }

    /// Marks the start of a send: the report of the radio is awaited.
    pub fn start(&mut self)
        ensures
            *final(self) == (SendState { cb_invoked: false, ..*old(self) }),
    {
        self.cb_invoked = false;
    }

    /// Takes the report of the radio on the send, which succeeded if
    /// `status` is [`ESP_NOW_SEND_SUCCESS`].
    pub fn send_cb(&mut self, status: u32)
        ensures
            *final(self) == (SendState {
                cb_invoked: true,
                status: status == ESP_NOW_SEND_SUCCESS,
            }),
    {
        let is_success = status == ESP_NOW_SEND_SUCCESS;
        self.status = is_success;

        self.cb_invoked = true;
    }

    /// What a finished send resulted in.
    pub fn wait(&self) -> (result: Result<(), EspNowError>)
        requires
            self.cb_invoked,
        ensures
            result == self.spec_result(),
    {
        if self.status {
            Ok(())
        } else {
            Err(EspNowError::SendFailed)
        }
    }

    /// One poll of a send that is under way.
    pub fn poll(&self) -> (poll: SendPoll)
        ensures
            poll == self.spec_poll(),
    {
        if !self.cb_invoked {
            SendPoll::Pending
        } else {
            SendPoll::Ready(
                if self.status {
                    Ok(())
                } else {
                    Err(EspNowError::SendFailed)
                },
            )
        }
    }

    /// The first poll of a send, after the packet was handed to the radio,
    /// which answered with the status `code`. If the radio refused the
    /// packet, the send has finished with its error and is not marked as
    /// sent; else it is, and the poll tells how far the send has come.
    pub fn poll_first(&self, sent: &mut bool, code: i32) -> (poll: SendPoll)
        ensures
            poll == (match spec_check_error(code) {
                Err(e) => SendPoll::Ready(Err(e)),
                Ok(_) => self.spec_poll(),
            }),
            *final(sent) == (if code == 0 {
                true
            } else {
                *old(sent)
            }),
    {
        if let Err(e) = check_error(code) {
            return SendPoll::Ready(Err(e));
        }
        *sent = true;
        self.poll()
    }
}

/// The count of the parts of the driver that are alive; the radio is shut
/// down when the last of them is dropped.
#[derive(Debug)]
pub struct EspNowRc {
    rc: u8,
}

impl View for EspNowRc {
    type V = u8;

    closed spec fn view(&self) -> u8 {
        self.rc
    }
}

impl EspNowRc {
    /// The count for the first part, or none if `parts` are alive already.
    pub fn new(parts: u8) -> (rc: Result<EspNowRc, EspNowError>)
        ensures
            parts == 0 <==> rc is Ok,
            rc matches Ok(r) ==> r@ == 1,
            rc matches Err(e) ==> e == EspNowError::DuplicateInstance,
    {
        if parts != 0 {
            return Err(EspNowError::DuplicateInstance);
        }
        Ok(EspNowRc { rc: 1 })
    }

    /// Counts one more part. The count wraps around after 255.
    pub fn acquire(&mut self)
        ensures
            final(self)@ == (if old(self)@ == u8::MAX {
                0u8
            } else {
                (old(self)@ + 1) as u8
            }),
    {
        self.rc = if self.rc == u8::MAX {
            0
        } else {
            self.rc + 1
        };
    }

    /// Counts one part less; the count wraps around below 0. Returns
    /// whether it was the last, so that the radio is to be shut down.
    pub fn release(&mut self) -> (last: bool)
        ensures
            final(self)@ == (if old(self)@ == 0 {
                u8::MAX
            } else {
                (old(self)@ - 1) as u8
            }),
            last == (old(self)@ == 1),
    {
        let before = self.rc;
        self.rc = if before == 0 {
            u8::MAX
        } else {
            before - 1
        };
        before == 1
    }

    /// The number of parts that are alive.
    pub fn count(&self) -> (count: u8)
        ensures
            count == self@,
    {
        self.rc
    }
}

} // verus!
