//! Platform and model descriptions: how to reach an ECU and how to recognise its firmware.
use vstd::prelude::*;

verus! {

/// How a platform's firmware is read out.
#[derive(Debug, Clone, Copy, PartialEq, Eq, Structural)]
pub enum DownloadMode {
    Mazda1,
    Disabled,
}

impl Default for DownloadMode {
    fn default() -> (r: DownloadMode)
        ensures
            r == DownloadMode::Disabled,
    {
        DownloadMode::Disabled
    }
}

/// How a platform's firmware is written.
#[derive(Debug, Clone, Copy, PartialEq, Eq, Structural)]
pub enum FlashMode {
    Mazda1,
    Disabled,
}

impl Default for FlashMode {
    fn default() -> (r: FlashMode)
        ensures
            r == FlashMode::Disabled,
    {
        FlashMode::Disabled
    }
}

/// How a platform's live parameters are polled.
#[derive(Debug, Clone, Copy, PartialEq, Eq, Structural)]
pub enum LogMode {
    Uds,
    Disabled,
}

impl Default for LogMode {
    fn default() -> (r: LogMode)
        ensures
            r == LogMode::Disabled,
    {
        LogMode::Disabled
    }
}

/// Byte order of multi-byte values in a firmware image.
#[derive(Debug, Clone, Copy, PartialEq, Eq, Structural)]
pub enum Endianness {
    Big,
    Little,
}

/// The type of a stored or polled value.
#[derive(Debug, Clone, Copy, PartialEq, Eq, Structural)]
pub enum DataType {
    Uint8,
    Uint16,
    Uint32,
    Uint64,
    Float32,
    Float64,
    Int8,
    Int16,
    Int32,
    Int64,
}

/// Bytes that a model's firmware holds at `offset`.
#[derive(Debug, Clone)]
pub struct Identifier {
    pub offset: u32,
    pub data: Vec<u8>,
}

/// A live parameter: polled with ReadDataByIdentifier `code`, converted by `formula`.
#[derive(Debug, Clone)]
pub struct Pid {
    pub name: String,
    pub description: String,
    pub formula: String,
    pub unit: String,
    pub datatype: DataType,
    pub id: u32,
    pub code: u16,
}

/// A specific model of an ECU.
#[derive(Debug, Clone)]
pub struct Model {
    pub id: String,
    pub name: String,
    pub identifiers: Vec<Identifier>,
}

/// Whether `data` holds `id.data` at `id.offset`.
pub open spec fn matches_identifier(id: Identifier, data: Seq<u8>) -> bool {
    id.offset + id.data@.len() <= data.len() && data.subrange(
        id.offset as int,
        id.offset + id.data@.len(),
    ) == id.data@
}

/// Whether `data` holds every identifier of `model`.
pub open spec fn identifies(model: Model, data: Seq<u8>) -> bool {
    forall|i: int|
        0 <= i < model.identifiers@.len() ==> matches_identifier(
            #[trigger] model.identifiers@[i],
            data,
        )
}

/// Whether `data` holds `id.data` at `id.offset`.
fn holds_identifier(id: &Identifier, data: &[u8]) -> (r: bool)
    ensures
        r == matches_identifier(*id, data@),
{
    let off = id.offset as usize;
    let n = data.len();
    if off > n || n - off < id.data.len() {
        return false;
    }
    let mut k: usize = 0;
    while k < id.data.len()
        invariant
            k <= id.data@.len(),
            off == id.offset,
            n == data@.len(),
            off + id.data@.len() <= n,
            forall|j: int| 0 <= j < k ==> data@[off + j] == id.data@[j],
        decreases id.data@.len() - k,
    {
        if data[off + k] != id.data[k] {
            assert(data@.subrange(off as int, off + id.data@.len())[k as int] != id.data@[k as int]);
            return false;
        }
        k = k + 1;
    }
    assert(data@.subrange(off as int, off + id.data@.len()) =~= id.data@);
    true
}

impl Model {
    /// True when the firmware `data` holds every identifier of this model.
    pub fn identify(&self, data: &[u8]) -> (r: bool)
        ensures
            r == identifies(*self, data@),
    {
        let mut i: usize = 0;
        while i < self.identifiers.len()
            invariant
                i <= self.identifiers@.len(),
                forall|j: int|
                    0 <= j < i ==> matches_identifier(#[trigger] self.identifiers@[j], data@),
            decreases self.identifiers@.len() - i,
        {
            if !holds_identifier(&self.identifiers[i], data) {
                return false;
            }
            i = i + 1;
        }
        true
    }
}

/// How a platform is reached.
#[derive(Debug, Clone)]
pub struct Transfer {
    pub download_mode: DownloadMode,
    pub flash_mode: FlashMode,
    /// Security key.
    pub key: String,
    /// Server id for ISO-TP requests.
    pub server_id: u16,
}

/// A platform: its link settings, memory layout, parameters and models.
#[derive(Debug, Clone)]
pub struct Main {
    pub name: String,
    pub id: String,
    pub transfer: Transfer,
    pub baudrate: u32,
    pub log_mode: LogMode,
    pub endianness: Endianness,
    pub flash_offset: usize,
    pub flash_size: usize,
    pub rom_size: usize,
    pub pids: Vec<Pid>,
    pub vins: Vec<String>,
    pub models: Vec<Model>,
}

impl Main {
    /// The index of the first model that recognises the firmware `data`.
    pub fn identify(&self, data: &[u8]) -> (r: Option<usize>)
        ensures
            r matches Some(i) ==> i < self.models@.len() && identifies(self.models@[i as int], data@),
            r is None ==> forall|m: int|
                0 <= m < self.models@.len() ==> !identifies(#[trigger] self.models@[m], data@),
    {
        let mut m: usize = 0;
        while m < self.models.len()
            invariant
                m <= self.models@.len(),
                forall|k: int| 0 <= k < m ==> !identifies(#[trigger] self.models@[k], data@),
            decreases self.models@.len() - m,
        {
            if self.models[m].identify(data) {
                return Some(m);
            }
            m = m + 1;
        }
        None
    }
}

} // verus!
