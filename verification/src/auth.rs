use vstd::prelude::*;

use crate::utils::{aes128_cbc_encrypt, encrypt_value};

verus! {

/// What one frame from the authentication notification channel means.
#[derive(Clone, Debug)]
pub enum AuthFrame {
    /// The device asks the client to restart the handshake.
    Restart,
    /// The device supplies a sixteen-byte nonce to encrypt.
    Challenge(Vec<u8>),
    /// The device accepts the key: authentication succeeded.
    Success,
    /// The device rejects the key.
    Failure,
    /// Anything else; kept without effect, never fatal.
    Unrecognized,
}

/// A frame is interpreted at all only when it starts with `0x10` and has
/// at least three bytes.
pub open spec fn is_auth_frame(b: Seq<u8>) -> bool {
    b.len() >= 3 && b[0] == 0x10
}

pub open spec fn spec_is_restart(b: Seq<u8>) -> bool {
    is_auth_frame(b) && b[1] == 0x01 && b[2] == 0x01
}

/// A challenge carries its nonce at offset three, so it needs nineteen
/// bytes in all.
pub open spec fn spec_is_challenge(b: Seq<u8>) -> bool {
    is_auth_frame(b) && b.len() >= 19 && b[1] == 0x02 && b[2] == 0x01
}

pub open spec fn spec_is_success(b: Seq<u8>) -> bool {
    is_auth_frame(b) && b[1] == 0x03 && b[2] == 0x01
}

pub open spec fn spec_is_failure(b: Seq<u8>) -> bool {
    is_auth_frame(b) && b[1] == 0x03 && b[2] == 0x08
}

/// Classify one frame read from the authentication channel.
pub fn classify_auth_frame(buf: &[u8]) -> (r: AuthFrame)
    ensures
        r is Restart <==> spec_is_restart(buf@),
        r is Challenge <==> spec_is_challenge(buf@),
        r is Success <==> spec_is_success(buf@),
        r is Failure <==> spec_is_failure(buf@),
        r matches AuthFrame::Challenge(nonce) ==> nonce@ == buf@.subrange(3, 19),
{
    if buf.len() < 3 || buf[0] != 0x10 {
        return AuthFrame::Unrecognized;
    }
    if buf[1] == 0x01 && buf[2] == 0x01 {
        AuthFrame::Restart
    } else if buf[1] == 0x02 && buf[2] == 0x01 && buf.len() >= 19 {
        let mut nonce: Vec<u8> = Vec::new();
        crate::codec::append_bytes(&mut nonce, &buf[3..19]);
        AuthFrame::Challenge(nonce)
    } else if buf[1] == 0x03 && buf[2] == 0x01 {
        AuthFrame::Success
    } else if buf[1] == 0x03 && buf[2] == 0x08 {
        AuthFrame::Failure
    } else {
        AuthFrame::Unrecognized
    }
}

/// The two bytes that ask the device to begin the handshake.
pub open spec fn spec_auth_start_bytes() -> Seq<u8> {
    seq![0x02u8, 0x00u8]
}

/// Build the frame that starts (or restarts) the handshake.
pub fn auth_start_frame() -> (r: Vec<u8>)
    ensures
        r@ == spec_auth_start_bytes(),
{
    let mut out: Vec<u8> = Vec::new();
    out.push(0x02);
    out.push(0x00);
    proof {
        assert(out@ =~= spec_auth_start_bytes());
    }
    out
}

/// The answer to a challenge: a two-byte header and the first sixteen
/// bytes of the encrypted nonce.
pub open spec fn spec_challenge_response(key: Seq<u8>, nonce: Seq<u8>) -> Seq<u8> {
    seq![0x03u8, 0x00u8] + aes128_cbc_encrypt(key, nonce).subrange(0, 16)
}

/// Encrypt the device's nonce with the authentication key and frame the
/// response.
pub fn challenge_response(key: &[u8], nonce: &[u8]) -> (r: Vec<u8>)
    requires
        key@.len() == 16,
        nonce@.len() == 16,
    ensures
        r@ == spec_challenge_response(key@, nonce@),
{
    let encrypted = match encrypt_value(key, nonce) {
        Some(ct) => ct,
        None => {
            proof {
                assert(false);
            }
            Vec::new()
        },
    };
    let mut out: Vec<u8> = Vec::new();
    out.push(0x03);
    out.push(0x00);
    for i in 0..16usize
        invariant
            encrypted@.len() == 32,
            out@ == seq![0x03u8, 0x00u8] + encrypted@.subrange(0, i as int),
    {
        out.push(encrypted[i]);
        proof {
            assert(seq![0x03u8, 0x00u8] + encrypted@.subrange(0, i + 1) =~= (seq![
                0x03u8,
                0x00u8,
            ] + encrypted@.subrange(0, i as int)).push(encrypted@[i as int]));
        }
    }
    proof {
        assert(out@ =~= spec_challenge_response(key@, nonce@));
    }
    out
}

} // verus!
