//! The message taxonomy of the kernel/runtime coprocessor protocol: the
//! closed tagged union exchanged over the mailbox, structured exceptions, and
//! load errors. Exactly one message occupies the channel at a time; message
//! identity is the tag, the payload is variant-specific.

use vstd::prelude::*;

verus! {

/// Start of the fixed memory window the kernel program image is mapped into.
pub const KERNELCPU_PAYLOAD_ADDRESS: u32 = 0x40420000;
/// One past the last address of the kernel-core memory window.
pub const KERNELCPU_LAST_ADDRESS: u32 = 0x4fffffff;

/// A structured exception value. It is constructed at the raise site and
/// consumed immediately, either by a local recovery point or by serialization
/// into `RunException`/`RpcRecvReply`; it is never persisted.
///
/// `message` is a format template; the up-to-three numeric parameters in
/// `param` let simple faults cross cores without formatting.
#[derive(Clone, Debug)]
pub struct Exception {
    pub name: String,
    pub file: String,
    pub line: u32,
    pub column: u32,
    pub function: String,
    pub message: String,
    pub param: [i64; 3],
}

/// Why loading a kernel program image failed. Reported to the runtime core
/// via `LoadReply(Err(_))`; the runtime core stays alive for a retry.
#[derive(Clone, Debug)]
pub enum LoadError {
    /// The image does not fit the memory window or its tables are malformed.
    InvalidFormat,
    /// A relocation points outside the mapped image.
    RelocationOutOfRange,
    /// An external reference could not be resolved against the API table.
    Unresolved(Vec<u8>),
}

/// How a kernel-core operation that waits for a reply can fail.
#[derive(Clone, Debug)]
pub enum Fault {
    /// A structured exception to be raised at the nearest recovery point.
    Exception(Exception),
    /// The peer sent an unexpected variant mid-handshake. No recovery is
    /// possible once the two cores disagree on protocol state: the caller
    /// must log and halt.
    ProtocolViolation,
}

/// One reflected attribute of a kernel object: its byte offset inside the
/// object, its type tag (empty when the attribute is not written back), and
/// its name.
#[derive(Clone, Debug)]
pub struct Attr {
    pub offset: u32,
    pub tag: Vec<u8>,
    pub name: Vec<u8>,
}

/// One entry of the image's reflection table: the attributes of one type and
/// the addresses of its live object instances.
#[derive(Clone, Debug)]
pub struct TypeDesc {
    pub attributes: Vec<Attr>,
    pub objects: Vec<u32>,
}

/// The tagged union exchanged over the mailbox. Every request variant has
/// exactly one corresponding reply variant; a mismatched reply is a protocol
/// violation. Names and log text are byte strings as they cross the wire.
#[derive(Debug)]
pub enum Message {
    /// Runtime core asks the kernel core to load a program image.
    LoadRequest(Image),
    LoadReply(Result<(), LoadError>),

    NowInitRequest,
    NowInitReply(u64),
    NowSave(u64),

    RunFinished,
    RunException { exception: Exception, backtrace: Vec<u32> },
    RunAborted,

    /// A remote procedure call; `is_async` marks calls that do not expect an
    /// immediate reply (queue overflow falls back to this variant). `data`
    /// is the marshalled argument table, one byte string per argument.
    RpcSend { is_async: bool, service: u32, tag: Vec<u8>, data: Vec<Vec<u8>> },
    /// The kernel core asks for the reply to the outstanding RPC; `slot` is
    /// the address of caller-provided storage for the decoded return value.
    RpcRecvRequest(u64),
    RpcRecvReply(Result<u64, Exception>),

    WatchdogSetRequest { ms: u64 },
    WatchdogSetReply { id: u32 },
    WatchdogClear { id: u32 },

    CacheGetRequest { key: Vec<u8> },
    CacheGetReply { value: Vec<i32> },
    CachePutRequest { key: Vec<u8>, value: Vec<i32> },
    CachePutReply { succeeded: bool },

    I2cStartRequest { busno: u8 },
    I2cStopRequest { busno: u8 },
    I2cWriteRequest { busno: u8, data: u8 },
    I2cWriteReply { ack: bool },
    I2cReadRequest { busno: u8, ack: bool },
    I2cReadReply { data: u8 },

    DmaRecordStart,
    DmaRecordStop(Vec<u8>),
    DmaRecordAppend { timestamp: u64, channel: u32, address: u32, data: Vec<u32> },
    DmaEraseRequest(Vec<u8>),
    DmaPlaybackRequest(Vec<u8>),
    DmaPlaybackReply(Option<Vec<u8>>),

    Log(Vec<u8>),
    LogSlice(Vec<u8>),
}

/// A relocatable kernel program image, as the runtime core hands it over:
/// the initialized bytes (whose length is the whole mapped size, bss space
/// included), exported symbols, external references to resolve against the
/// API table, and relocations to apply once the base address is known.
#[derive(Clone, Debug)]
pub struct Image {
    pub data: Vec<u8>,
    pub exports: Vec<Symbol>,
    pub imports: Vec<Vec<u8>>,
    pub relocs: Vec<Reloc>,
}

/// A symbol the image exports: a name and its offset inside the image.
#[derive(Clone, Debug)]
pub struct Symbol {
    pub name: Vec<u8>,
    pub offset: u32,
}

/// One relocation: the 4-byte little-endian word at `offset` becomes
/// `base + addend` once the image is mapped at `base`.
#[derive(Clone, Debug)]
pub struct Reloc {
    pub offset: u32,
    pub addend: u32,
}

} // verus!
