//! The transport task.
//!
//! Each invocation does two things that do not depend on each other. It
//! forwards telemetry: while the host shows that it is ready, whatever the
//! channel has ready is taken out for the host. And it answers the host:
//! bytes that the host sent come back in upper case, in as many writes as
//! the transport needs. The serial port is not in here: the caller says
//! whether the host is ready, writes what comes back, and reports how each
//! write of a reply went.

use crate::channel::{released, try_read, CHANNEL_CAPACITY};
use vstd::prelude::*;
use vstd::slice::slice_subrange;

verus! {

/// The vendor identifier that the device shows to the host.
pub const USB_VENDOR_ID: u16 = 0x16c2;

/// The product identifier that the device shows to the host.
pub const USB_PRODUCT_ID: u16 = 0x27de;

/// The device class that the device shows to the host: communications.
pub const USB_DEVICE_CLASS: u8 = 2;

/// The manufacturer's name that the device shows to the host.
pub const USB_MANUFACTURER: &'static str = "NELC";

/// The product's name that the device shows to the host.
pub const USB_PRODUCT: &'static str = "KB2040-HEADTRACK";

/// The serial number that the device shows to the host.
pub const USB_SERIAL_NUMBER: &'static str = "TEST";

/// Bytes that are read from the host at a time.
pub const ECHO_BUFFER_LEN: usize = 64;

/// A byte in upper case: a small ASCII letter becomes the capital one, every
/// other byte stays.
pub open spec fn upper(byte: u8) -> u8 {
    if 0x61 <= byte <= 0x7a {
        (byte - 0x20) as u8
    } else {
        byte
    }
}

/// Bytes in upper case, one for one.
pub open spec fn upper_all(bytes: Seq<u8>) -> Seq<u8> {
    Seq::new(bytes.len(), |i: int| upper(bytes[i]))
}

/// What is left of a reply after one write. A write that took `n` bytes
/// leaves what lies behind them; a write that failed leaves nothing, since
/// the rest is given up.
pub open spec fn after_write(pending: Seq<u8>, written: Option<usize>) -> Seq<u8> {
    match written {
        Some(n) => if n <= pending.len() {
            pending.skip(n as int)
        } else {
            Seq::empty()
        },
        None => Seq::empty(),
    }
}

/// A byte in upper case.
pub fn to_upper(byte: u8) -> (out: u8)
    ensures
        out == upper(byte),
{
    if 0x61 <= byte && byte <= 0x7a {
        byte - 0x20
    } else {
        byte
    }
}

/// The transport task: the reading end of the channel.
pub struct UsbTask<'a> {
    consumer: bbqueue::Consumer<'a, 128>,
}

impl<'a> UsbTask<'a> {
    /// Every byte that the task has taken out of the channel, oldest first.
    pub closed spec fn delivered(&self) -> Seq<u8> {
        released(self.consumer)
    }

    /// A task on the reading end of the channel.
    pub fn new(consumer: bbqueue::Consumer<'a, 128>) -> (task: Self)
        ensures
            task.delivered() == released(consumer),
    {
        Self { consumer }
    }

    /// Takes out of the channel what is to be written to the host now.
    ///
    /// While the host is not ready the channel is not touched and nothing
    /// comes back. While it is ready, the bytes that the channel has ready
    /// come back, in the order in which they went in, and have left the
    /// channel; `None` then means that nothing was ready.
    pub fn forward(&mut self, host_ready: bool) -> (out: Option<Vec<u8>>)
        ensures
            !host_ready ==> out is None,
            match out {
                Some(bytes) => 0 < bytes@.len() <= CHANNEL_CAPACITY && final(self).delivered()
                    == old(self).delivered() + bytes@,
                None => final(self).delivered() == old(self).delivered(),
            },
    {
        if host_ready {
            try_read(&mut self.consumer)
        } else {
            None
        }
    }
}

/// A reply to the host that is being written out.
pub struct EchoReply {
    bytes: Vec<u8>,
    sent: usize,
}

impl EchoReply {
    #[verifier::type_invariant]
    spec fn within(&self) -> bool {
        self.sent <= self.bytes@.len()
    }

    /// The bytes that have not been written yet.
    pub closed spec fn pending(&self) -> Seq<u8> {
        self.bytes@.skip(self.sent as int)
    }

    /// The reply to what the host sent: the same bytes in upper case.
    pub fn new(received: &[u8]) -> (reply: Self)
        ensures
            reply.pending() == upper_all(received@),
    {
        let mut bytes: Vec<u8> = Vec::new();
        let mut i: usize = 0;
        while i < received.len()
            invariant
                i <= received@.len(),
                bytes@ == upper_all(received@.take(i as int)),
            decreases received@.len() - i,
        {
            bytes.push(to_upper(received[i]));
            i += 1;
            proof {
                assert(bytes@ =~= upper_all(received@.take(i as int)));
            }
        }
        proof {
            assert(received@.take(i as int) =~= received@);
            assert(bytes@.skip(0) =~= bytes@);
        }
        Self { bytes, sent: 0 }
    }

    /// Whether nothing is left to write.
    pub fn is_done(&self) -> (done: bool)
        ensures
            done == (self.pending().len() == 0),
    {
        proof {
            use_type_invariant(self);
        }
        self.sent == self.bytes.len()
    }

    /// The bytes to hand to the next write: all that is left.
    pub fn chunk(&self) -> (bytes: &[u8])
        ensures
            bytes@ == self.pending(),
    {
        proof {
            use_type_invariant(self);
        }
        let all = self.bytes.as_slice();
        let rest = slice_subrange(all, self.sent, all.len());
        proof {
            assert(rest@ =~= self.pending());
        }
        rest
    }

    /// Takes note of how the write of [`EchoReply::chunk`] went: `Some` with
    /// the number of bytes that the transport took, `None` where the write
    /// failed.
    pub fn record(&mut self, written: Option<usize>)
        ensures
            final(self).pending() == after_write(old(self).pending(), written),
    {
        proof {
            use_type_invariant(&*self);
        }
        let left = self.bytes.len() - self.sent;
        match written {
            Some(n) => {
                if n <= left {
                    self.sent = self.sent + n;
                } else {
                    self.sent = self.bytes.len();
                }
            },
            None => {
                self.sent = self.bytes.len();
            },
        }
        proof {
            assert(self.pending() =~= after_write(old(self).pending(), written));
        }
    }
}

} // verus!
