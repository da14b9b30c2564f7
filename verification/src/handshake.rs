//! The fixed vendor initialization exchange: four byte sequences sent in
//! order on the output interrupt endpoint, each followed by a read. The
//! first three begin with a sentinel lead byte and are zero-padded to the
//! handshake buffer size before transmission; the fourth is sent as-is.

use vstd::prelude::*;

verus! {

/// USB vendor identifier of the tablet.
pub const VENDOR_ID: u16 = 0x0483;

/// USB product identifier of the tablet.
pub const PRODUCT_ID: u16 = 0xa014;

/// The interface that must be claimed before the exchange.
pub const INTERFACE_NUMBER: u8 = 0x02;

/// Input interrupt endpoint address.
pub const IN_ENDPOINT: u8 = 0x83;

/// Output interrupt endpoint address.
pub const OUT_ENDPOINT: u8 = 0x03;

/// Size of the handshake transfer buffer; padded messages have exactly
/// this length.
pub const HANDSHAKE_BUF_LEN: usize = 1101;

/// Size of a steady-state report transfer buffer.
pub const INPUT_BUF_LEN: usize = 10;

/// Number of messages in the handshake exchange.
pub const HANDSHAKE_MESSAGE_COUNT: usize = 4;

/// The lead byte marking a handshake message that is zero-padded before
/// transmission.
pub const HANDSHAKE_LEAD_BYTE: u8 = 0xfd;

/// The raw (unpadded) bytes of handshake message `i`.
pub open spec fn handshake_raw(i: int) -> Seq<u8> {
    if i == 0 {
        seq![
            0xfdu8, 0x89, 0xff, 0xff, 0x00, 0x00, 0x00, 0x06, 0x00, 0x00, 0x03, 0x01, 0x01, 0x01,
            0x91, 0x20,
        ]
    } else if i == 1 {
        seq![
            0xfdu8, 0x89, 0xff, 0xff, 0x00, 0x01, 0x00, 0x06, 0x00, 0x00, 0x01, 0x01, 0x02, 0x02,
            0xfd, 0x58,
        ]
    } else if i == 2 {
        seq![
            0xfdu8, 0x89, 0xff, 0xff, 0x00, 0x02, 0x00, 0x06, 0x00, 0x00, 0x01, 0x01, 0x02, 0x04,
            0x4e, 0x69,
        ]
    } else {
        seq![0x02u8, 0xb0, 0x04, 0x00, 0x00, 0x00, 0x00, 0x00]
    }
}

/// The bytes actually transmitted for handshake message `i`: a message
/// with the sentinel lead byte is zero-padded to the handshake buffer
/// size; any other is sent unpadded at its natural length.
pub open spec fn handshake_wire(i: int) -> Seq<u8> {
    let raw = handshake_raw(i);
    if raw[0] == HANDSHAKE_LEAD_BYTE {
        raw + Seq::new((HANDSHAKE_BUF_LEN - raw.len()) as nat, |j: int| 0u8)
    } else {
        raw
    }
}

/// Build handshake message `i` as it goes on the wire.
pub fn handshake_message(i: usize) -> (r: Vec<u8>)
    requires
        i < HANDSHAKE_MESSAGE_COUNT,
    ensures
        r@ == handshake_wire(i as int),
{
    let mut v: Vec<u8> = Vec::new();
    if i == 0 {
        v.push(0xfd);
        v.push(0x89);
        v.push(0xff);
        v.push(0xff);
        v.push(0x00);
        v.push(0x00);
        v.push(0x00);
        v.push(0x06);
        v.push(0x00);
        v.push(0x00);
        v.push(0x03);
        v.push(0x01);
        v.push(0x01);
        v.push(0x01);
        v.push(0x91);
        v.push(0x20);
    } else if i == 1 {
        v.push(0xfd);
        v.push(0x89);
        v.push(0xff);
        v.push(0xff);
        v.push(0x00);
        v.push(0x01);
        v.push(0x00);
        v.push(0x06);
        v.push(0x00);
        v.push(0x00);
        v.push(0x01);
        v.push(0x01);
        v.push(0x02);
        v.push(0x02);
        v.push(0xfd);
        v.push(0x58);
    } else if i == 2 {
        v.push(0xfd);
        v.push(0x89);
        v.push(0xff);
        v.push(0xff);
        v.push(0x00);
        v.push(0x02);
        v.push(0x00);
        v.push(0x06);
        v.push(0x00);
        v.push(0x00);
        v.push(0x01);
        v.push(0x01);
        v.push(0x02);
        v.push(0x04);
        v.push(0x4e);
        v.push(0x69);
    } else {
        v.push(0x02);
        v.push(0xb0);
        v.push(0x04);
        v.push(0x00);
        v.push(0x00);
        v.push(0x00);
        v.push(0x00);
        v.push(0x00);
    }
    proof {
        assert(v@ =~= handshake_raw(i as int));
    }
    let ghost raw = v@;
    if v[0] == HANDSHAKE_LEAD_BYTE {
        proof {
            assert(v@ =~= raw + Seq::new((v@.len() - raw.len()) as nat, |j: int| 0u8));
        }
        while v.len() < HANDSHAKE_BUF_LEN
            invariant
                raw.len() <= v@.len() <= HANDSHAKE_BUF_LEN,
                raw == handshake_raw(i as int),
                raw.len() <= 16,
                v@ == raw + Seq::new((v@.len() - raw.len()) as nat, |j: int| 0u8),
            decreases HANDSHAKE_BUF_LEN - v@.len(),
        {
            v.push(0);
            proof {
                assert(v@ =~= raw + Seq::new((v@.len() - raw.len()) as nat, |j: int| 0u8));
            }
        }
        proof {
            assert(v@ =~= handshake_wire(i as int));
        }
    } else {
        proof {
            assert(v@ =~= handshake_wire(i as int));
        }
    }
    v
}

} // verus!
