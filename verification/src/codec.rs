//! Wire codec for [`IpcCommand`]: each command has one canonical,
//! self-describing byte encoding (a JSON text — either a quoted tag for a
//! bare command, or an object pairing the tag with its boolean payload).
//! `decode` accepts exactly the canonical encodings and reports
//! [`IpcError::ProtocolError`] on anything else, so malformed or truncated
//! input never yields a command.

use vstd::prelude::*;

use crate::ipc::IpcCommand;
use crate::ipc::IpcError;

verus! {

/// The canonical byte encoding of a command.
pub open spec fn spec_encode(c: IpcCommand) -> Seq<u8> {
    match c {
        IpcCommand::StartBackground => seq![
            34u8, 83, 116, 97, 114, 116, 66, 97, 99, 107, 103, 114, 111, 117, 110, 100, 34,
        ],
        IpcCommand::StopBackground => seq![
            34u8, 83, 116, 111, 112, 66, 97, 99, 107, 103, 114, 111, 117, 110, 100, 34,
        ],
        IpcCommand::StartUI => seq![34u8, 83, 116, 97, 114, 116, 85, 73, 34],
        IpcCommand::CloseUI => seq![34u8, 67, 108, 111, 115, 101, 85, 73, 34],
        IpcCommand::QuitAll => seq![34u8, 81, 117, 105, 116, 65, 108, 108, 34],
        IpcCommand::Ping => seq![34u8, 80, 105, 110, 103, 34],
        IpcCommand::Pong => seq![34u8, 80, 111, 110, 103, 34],
        IpcCommand::BackgroundStatus(b) => if b {
            seq![
                123u8, 34, 66, 97, 99, 107, 103, 114, 111, 117, 110, 100, 83, 116, 97, 116, 117,
                115, 34, 58, 116, 114, 117, 101, 125,
            ]
        } else {
            seq![
                123u8, 34, 66, 97, 99, 107, 103, 114, 111, 117, 110, 100, 83, 116, 97, 116, 117,
                115, 34, 58, 102, 97, 108, 115, 101, 125,
            ]
        },
        IpcCommand::UIStatus(b) => if b {
            seq![123u8, 34, 85, 73, 83, 116, 97, 116, 117, 115, 34, 58, 116, 114, 117, 101, 125]
        } else {
            seq![
                123u8, 34, 85, 73, 83, 116, 97, 116, 117, 115, 34, 58, 102, 97, 108, 115, 101, 125,
            ]
        },
    }
}

/// What a byte sequence decodes to: the unique command whose canonical
/// encoding it is, or nothing.
pub open spec fn spec_decode(s: Seq<u8>) -> Option<IpcCommand> {
    if s == spec_encode(IpcCommand::StartBackground) {
        Some(IpcCommand::StartBackground)
    } else if s == spec_encode(IpcCommand::StopBackground) {
        Some(IpcCommand::StopBackground)
    } else if s == spec_encode(IpcCommand::StartUI) {
        Some(IpcCommand::StartUI)
    } else if s == spec_encode(IpcCommand::CloseUI) {
        Some(IpcCommand::CloseUI)
    } else if s == spec_encode(IpcCommand::QuitAll) {
        Some(IpcCommand::QuitAll)
    } else if s == spec_encode(IpcCommand::Ping) {
        Some(IpcCommand::Ping)
    } else if s == spec_encode(IpcCommand::Pong) {
        Some(IpcCommand::Pong)
    } else if s == spec_encode(IpcCommand::BackgroundStatus(true)) {
        Some(IpcCommand::BackgroundStatus(true))
    } else if s == spec_encode(IpcCommand::BackgroundStatus(false)) {
        Some(IpcCommand::BackgroundStatus(false))
    } else if s == spec_encode(IpcCommand::UIStatus(true)) {
        Some(IpcCommand::UIStatus(true))
    } else if s == spec_encode(IpcCommand::UIStatus(false)) {
        Some(IpcCommand::UIStatus(false))
    } else {
        None
    }
}

/// Byte-for-byte equality of two slices.
fn bytes_eq(a: &[u8], b: &[u8]) -> (r: bool)
    ensures
        r == (a@ == b@),
{
    if a.len() != b.len() {
        return false;
    }
    let mut i: usize = 0;
    while i < a.len()
        invariant
            0 <= i <= a@.len(),
            a@.len() == b@.len(),
            forall|j: int| 0 <= j < i ==> a@[j] == b@[j],
        decreases a@.len() - i,
    {
        if a[i] != b[i] {
            return false;
        }
        i += 1;
    }
    proof {
        assert(a@ =~= b@);
    }
    true
}

/// Serialize a command to its canonical byte encoding.
pub fn encode(c: &IpcCommand) -> (r: Vec<u8>)
    ensures
        r@ == spec_encode(*c),
{
    let r: Vec<u8> = match c {
        IpcCommand::StartBackground => {
            let a: [u8; 17] = [
                34u8, 83, 116, 97, 114, 116, 66, 97, 99, 107, 103, 114, 111, 117, 110, 100, 34,
            ];
            vstd::slice::slice_to_vec(a.as_slice())
        },
        IpcCommand::StopBackground => {
            let a: [u8; 16] = [
                34u8, 83, 116, 111, 112, 66, 97, 99, 107, 103, 114, 111, 117, 110, 100, 34,
            ];
            vstd::slice::slice_to_vec(a.as_slice())
        },
        IpcCommand::StartUI => {
            let a: [u8; 9] = [34u8, 83, 116, 97, 114, 116, 85, 73, 34];
            vstd::slice::slice_to_vec(a.as_slice())
        },
        IpcCommand::CloseUI => {
            let a: [u8; 9] = [34u8, 67, 108, 111, 115, 101, 85, 73, 34];
            vstd::slice::slice_to_vec(a.as_slice())
        },
        IpcCommand::QuitAll => {
            let a: [u8; 9] = [34u8, 81, 117, 105, 116, 65, 108, 108, 34];
            vstd::slice::slice_to_vec(a.as_slice())
        },
        IpcCommand::Ping => {
            let a: [u8; 6] = [34u8, 80, 105, 110, 103, 34];
            vstd::slice::slice_to_vec(a.as_slice())
        },
        IpcCommand::Pong => {
            let a: [u8; 6] = [34u8, 80, 111, 110, 103, 34];
            vstd::slice::slice_to_vec(a.as_slice())
        },
        IpcCommand::BackgroundStatus(b) => {
            if *b {
                let a: [u8; 25] = [
                    123u8, 34, 66, 97, 99, 107, 103, 114, 111, 117, 110, 100, 83, 116, 97, 116,
                    117, 115, 34, 58, 116, 114, 117, 101, 125,
                ];
                vstd::slice::slice_to_vec(a.as_slice())
            } else {
                let a: [u8; 26] = [
                    123u8, 34, 66, 97, 99, 107, 103, 114, 111, 117, 110, 100, 83, 116, 97, 116,
                    117, 115, 34, 58, 102, 97, 108, 115, 101, 125,
                ];
                vstd::slice::slice_to_vec(a.as_slice())
            }
        },
        IpcCommand::UIStatus(b) => {
            if *b {
                let a: [u8; 17] = [
                    123u8, 34, 85, 73, 83, 116, 97, 116, 117, 115, 34, 58, 116, 114, 117, 101, 125,
                ];
                vstd::slice::slice_to_vec(a.as_slice())
            } else {
                let a: [u8; 18] = [
                    123u8, 34, 85, 73, 83, 116, 97, 116, 117, 115, 34, 58, 102, 97, 108, 115, 101,
                    125,
                ];
                vstd::slice::slice_to_vec(a.as_slice())
            }
        },
    };
    proof {
        assert(r@ =~= spec_encode(*c));
    }
    r
}

/// Deserialize a byte payload back into a command; malformed or truncated
/// input is rejected with a `ProtocolError`.
pub fn decode(bytes: &[u8]) -> (r: Result<IpcCommand, IpcError>)
    ensures
        match r {
            Ok(c) => spec_decode(bytes@) == Some(c),
            Err(e) => spec_decode(bytes@) is None && e == IpcError::ProtocolError,
        },
{
    if bytes_eq(bytes, encode(&IpcCommand::StartBackground).as_slice()) {
        return Ok(IpcCommand::StartBackground);
    }
    if bytes_eq(bytes, encode(&IpcCommand::StopBackground).as_slice()) {
        return Ok(IpcCommand::StopBackground);
    }
    if bytes_eq(bytes, encode(&IpcCommand::StartUI).as_slice()) {
        return Ok(IpcCommand::StartUI);
    }
    if bytes_eq(bytes, encode(&IpcCommand::CloseUI).as_slice()) {
        return Ok(IpcCommand::CloseUI);
    }
    if bytes_eq(bytes, encode(&IpcCommand::QuitAll).as_slice()) {
        return Ok(IpcCommand::QuitAll);
    }
    if bytes_eq(bytes, encode(&IpcCommand::Ping).as_slice()) {
        return Ok(IpcCommand::Ping);
    }
    if bytes_eq(bytes, encode(&IpcCommand::Pong).as_slice()) {
        return Ok(IpcCommand::Pong);
    }
    if bytes_eq(bytes, encode(&IpcCommand::BackgroundStatus(true)).as_slice()) {
        return Ok(IpcCommand::BackgroundStatus(true));
    }
    if bytes_eq(bytes, encode(&IpcCommand::BackgroundStatus(false)).as_slice()) {
        return Ok(IpcCommand::BackgroundStatus(false));
    }
    if bytes_eq(bytes, encode(&IpcCommand::UIStatus(true)).as_slice()) {
        return Ok(IpcCommand::UIStatus(true));
    }
    if bytes_eq(bytes, encode(&IpcCommand::UIStatus(false)).as_slice()) {
        return Ok(IpcCommand::UIStatus(false));
    }
    Err(IpcError::ProtocolError)
}

/// Law: every command round-trips through the wire format without loss;
/// decoding the canonical encoding of `c` gives back exactly `c`.
pub proof fn lemma_encode_decode_round_trip(c: IpcCommand)
    ensures
        spec_decode(spec_encode(c)) == Some(c),
{
    match c {
        IpcCommand::CloseUI => {
            assert(spec_encode(IpcCommand::CloseUI)[1] != spec_encode(IpcCommand::StartUI)[1]);
        },
        IpcCommand::QuitAll => {
            assert(spec_encode(IpcCommand::QuitAll)[1] != spec_encode(IpcCommand::StartUI)[1]);
            assert(spec_encode(IpcCommand::QuitAll)[1] != spec_encode(IpcCommand::CloseUI)[1]);
        },
        IpcCommand::Pong => {
            assert(spec_encode(IpcCommand::Pong)[2] != spec_encode(IpcCommand::Ping)[2]);
        },
        IpcCommand::UIStatus(b) => {
            assert(spec_encode(IpcCommand::UIStatus(true))[0]
                != spec_encode(IpcCommand::StartBackground)[0]);
        },
        _ => {},
    }
}

/// Law: the encoding is lossless — two commands with the same canonical
/// encoding are the same command.
pub proof fn lemma_encode_injective(c1: IpcCommand, c2: IpcCommand)
    requires
        spec_encode(c1) == spec_encode(c2),
    ensures
        c1 == c2,
{
    lemma_encode_decode_round_trip(c1);
    lemma_encode_decode_round_trip(c2);
}

/// A sequence cut off at `n` elements differs from `t` whenever `s` and `t`
/// differ at an index that both the cut and `t` retain.
proof fn lemma_prefix_differs(s: Seq<u8>, t: Seq<u8>, n: int, i: int)
    requires
        0 <= n <= s.len(),
        0 <= i < t.len(),
        i < s.len(),
        s[i] != t[i],
    ensures
        s.take(n) != t,
{
    if n == t.len() {
        assert(s.take(n)[i] == s[i]);
    }
}

/// Law: no truncation of a canonical encoding decodes to a command — the
/// empty payload and every proper prefix are rejected.
pub proof fn lemma_decode_truncated(c: IpcCommand, n: int)
    requires
        0 <= n < spec_encode(c).len(),
    ensures
        spec_decode(spec_encode(c).take(n)) is None,
{
    let s = spec_encode(c);
    assert(s.take(n).len() == n);
    match c {
        IpcCommand::StartBackground => {
            lemma_prefix_differs(s, spec_encode(IpcCommand::StopBackground), n, 3);
            lemma_prefix_differs(s, spec_encode(IpcCommand::StartUI), n, 6);
            lemma_prefix_differs(s, spec_encode(IpcCommand::CloseUI), n, 1);
            lemma_prefix_differs(s, spec_encode(IpcCommand::QuitAll), n, 1);
            lemma_prefix_differs(s, spec_encode(IpcCommand::Ping), n, 1);
            lemma_prefix_differs(s, spec_encode(IpcCommand::Pong), n, 1);
        },
        IpcCommand::StopBackground => {
            lemma_prefix_differs(s, spec_encode(IpcCommand::StartUI), n, 3);
            lemma_prefix_differs(s, spec_encode(IpcCommand::CloseUI), n, 1);
            lemma_prefix_differs(s, spec_encode(IpcCommand::QuitAll), n, 1);
            lemma_prefix_differs(s, spec_encode(IpcCommand::Ping), n, 1);
            lemma_prefix_differs(s, spec_encode(IpcCommand::Pong), n, 1);
        },
        IpcCommand::StartUI => {
            lemma_prefix_differs(s, spec_encode(IpcCommand::Ping), n, 1);
            lemma_prefix_differs(s, spec_encode(IpcCommand::Pong), n, 1);
        },
        IpcCommand::CloseUI => {
            lemma_prefix_differs(s, spec_encode(IpcCommand::Ping), n, 1);
            lemma_prefix_differs(s, spec_encode(IpcCommand::Pong), n, 1);
        },
        IpcCommand::QuitAll => {
            lemma_prefix_differs(s, spec_encode(IpcCommand::Ping), n, 1);
            lemma_prefix_differs(s, spec_encode(IpcCommand::Pong), n, 1);
        },
        IpcCommand::Ping => {},
        IpcCommand::Pong => {},
        IpcCommand::BackgroundStatus(b) => {
            lemma_prefix_differs(s, spec_encode(IpcCommand::StartBackground), n, 0);
            lemma_prefix_differs(s, spec_encode(IpcCommand::StopBackground), n, 0);
            lemma_prefix_differs(s, spec_encode(IpcCommand::StartUI), n, 0);
            lemma_prefix_differs(s, spec_encode(IpcCommand::CloseUI), n, 0);
            lemma_prefix_differs(s, spec_encode(IpcCommand::QuitAll), n, 0);
            lemma_prefix_differs(s, spec_encode(IpcCommand::Ping), n, 0);
            lemma_prefix_differs(s, spec_encode(IpcCommand::Pong), n, 0);
            lemma_prefix_differs(s, spec_encode(IpcCommand::UIStatus(true)), n, 2);
            lemma_prefix_differs(s, spec_encode(IpcCommand::UIStatus(false)), n, 2);
            if !b {
                lemma_prefix_differs(s, spec_encode(IpcCommand::BackgroundStatus(true)), n, 20);
            }
        },
        IpcCommand::UIStatus(b) => {
            lemma_prefix_differs(s, spec_encode(IpcCommand::StopBackground), n, 0);
            lemma_prefix_differs(s, spec_encode(IpcCommand::StartUI), n, 0);
            lemma_prefix_differs(s, spec_encode(IpcCommand::CloseUI), n, 0);
            lemma_prefix_differs(s, spec_encode(IpcCommand::QuitAll), n, 0);
            lemma_prefix_differs(s, spec_encode(IpcCommand::Ping), n, 0);
            lemma_prefix_differs(s, spec_encode(IpcCommand::Pong), n, 0);
            if !b {
                lemma_prefix_differs(s, spec_encode(IpcCommand::StartBackground), n, 0);
                lemma_prefix_differs(s, spec_encode(IpcCommand::UIStatus(true)), n, 12);
            }
        },
    }
}

/// Law: the empty byte sequence decodes to no command.
pub proof fn lemma_decode_empty()
    ensures
        spec_decode(Seq::<u8>::empty()) is None,
{
    lemma_decode_truncated(IpcCommand::Ping, 0);
    assert(spec_encode(IpcCommand::Ping).take(0) =~= Seq::<u8>::empty());
}

/// Every canonical encoding is short: at most 26 bytes.
pub proof fn lemma_encode_len(c: IpcCommand)
    ensures
        1 <= spec_encode(c).len() <= 26,
{
}

} // verus!
