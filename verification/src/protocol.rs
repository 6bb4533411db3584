//! The network control protocol.
//!
//! Each inbound datagram is a whitespace-tokenized ASCII command. The
//! parser lowers the ASCII case of the whole message, splits it into
//! tokens and maps the token shapes onto `ControlCommand` values; a
//! malformed or unrecognised message parses to nothing and is dropped by
//! the caller. A numeric volume argument is read as a decimal with at
//! most two fraction digits and must land inside the stored-volume range.

use vstd::prelude::*;

use crate::control::ControlCommand;
use crate::text::all_ascii;
use crate::text::ascii_bytes_to_string;
use crate::text::bytes_eq;
use crate::text::find_byte;
use crate::text::lower_bytes;
use crate::text::next_token;
use crate::text::spec_all_ascii;
use crate::text::spec_find;
use crate::text::spec_lower;
use crate::text::spec_tokens;

verus! {

/// An ASCII decimal digit.
pub open spec fn spec_is_digit(b: u8) -> bool {
    48 <= b <= 57
}

/// Every byte of `s` is a decimal digit.
pub open spec fn spec_all_digits(s: Seq<u8>) -> bool {
    forall|i: int| 0 <= i < s.len() ==> spec_is_digit(s[i])
}

/// The number the digit string `s` denotes, most significant digit first.
pub open spec fn spec_digits_value(s: Seq<u8>) -> nat
    decreases s.len(),
{
    if s.len() == 0 {
        0
    } else {
        spec_digits_value(s.take(s.len() - 1)) * 10 + (s[s.len() - 1] - 48) as nat
    }
}

/// The volume a token denotes, in hundredths of unit gain: an integer
/// part, an optional dot and at most two fraction digits, no more than
/// `2.00`. Anything else is rejected.
pub open spec fn spec_parse_volume(s: Seq<u8>) -> Option<u32> {
    let dot = spec_find(s, 46);
    let ip = if dot == -1 {
        s
    } else {
        s.take(dot)
    };
    let fp = if dot == -1 {
        Seq::<u8>::empty()
    } else {
        s.skip(dot + 1)
    };
    if !spec_all_digits(ip) || !spec_all_digits(fp) || (ip.len() == 0 && fp.len() == 0) || fp.len()
        > 2 {
        None
    } else {
        let total = spec_digits_value(ip) * 100 + spec_digits_value(fp) * (if fp.len() == 1 {
            10nat
        } else {
            1nat
        });
        if total > 200 {
            None
        } else {
            Some(total as u32)
        }
    }
}

/// A digit string of at most two digits denotes at most 99.
proof fn lemma_digits_value_small(s: Seq<u8>)
    requires
        spec_all_digits(s),
        s.len() <= 2,
    ensures
        s.len() == 0 ==> spec_digits_value(s) == 0,
        s.len() == 1 ==> spec_digits_value(s) <= 9,
        s.len() == 2 ==> spec_digits_value(s) <= 99,
    decreases s.len(),
{
    if s.len() > 0 {
        let pre = s.take(s.len() - 1);
        assert forall|i: int| 0 <= i < pre.len() implies spec_is_digit(pre[i]) by {
            assert(pre[i] == s[i]);
        }
        lemma_digits_value_small(pre);
        assert((s[s.len() - 1] - 48) as nat <= 9);
    }
}

/// Whether every byte of `s` is a decimal digit.
fn all_digits(s: &[u8]) -> (r: bool)
    ensures
        r == spec_all_digits(s@),
{
    let mut i: usize = 0;
    while i < s.len()
        invariant
            i <= s@.len(),
            forall|j: int| 0 <= j < i ==> spec_is_digit(s@[j]),
        decreases s@.len() - i,
    {
        if s[i] < 48 || s[i] > 57 {
            return false;
        }
        i = i + 1;
    }
    true
}

/// The value of a digit string, exact up to 1000 and reported as "over
/// 1000" beyond that, so a bounded accumulator suffices.
fn digits_value_capped(s: &[u8]) -> (r: u64)
    requires
        spec_all_digits(s@),
    ensures
        r <= 10009,
        spec_digits_value(s@) <= 1000 ==> r == spec_digits_value(s@),
        spec_digits_value(s@) > 1000 ==> r > 1000,
{
    let mut r: u64 = 0;
    proof {
        assert(s@.take(0) =~= Seq::<u8>::empty());
    }
    let mut i: usize = 0;
    while i < s.len()
        invariant
            i <= s@.len(),
            spec_all_digits(s@),
            r <= 10009,
            spec_digits_value(s@.take(i as int)) <= 1000 ==> r == spec_digits_value(
                s@.take(i as int),
            ),
            spec_digits_value(s@.take(i as int)) > 1000 ==> r > 1000,
        decreases s@.len() - i,
    {
        let d = s[i];
        proof {
            let pre = s@.take(i + 1);
            assert(pre.take(pre.len() - 1) =~= s@.take(i as int));
            assert(pre[pre.len() - 1] == s@[i as int]);
        }
        if r <= 1000 {
            r = r * 10 + ((d - 48) as u64);
        }
        i = i + 1;
    }
    proof {
        assert(s@.take(s@.len() as int) =~= s@);
    }
    r
}

/// Parse a volume token into hundredths of unit gain.
pub fn parse_volume(s: &[u8]) -> (r: Option<u32>)
    ensures
        r == spec_parse_volume(s@),
{
    let (ip, fp): (&[u8], &[u8]) = match find_byte(s, 46) {
        None => {
            proof {
                assert(s@.subrange(0, s@.len() as int) =~= s@);
                assert(s@.subrange(s@.len() as int, s@.len() as int) =~= Seq::<u8>::empty());
            }
            (s, vstd::slice::slice_subrange(s, s.len(), s.len()))
        },
        Some(dot) => {
            let n = s.len();
            proof {
                assert(s@.subrange(0, dot as int) =~= s@.take(dot as int));
                assert(s@.subrange(dot + 1, s@.len() as int) =~= s@.skip(dot + 1));
            }
            (
                vstd::slice::slice_subrange(s, 0, dot),
                vstd::slice::slice_subrange(s, dot + 1, n),
            )
        },
    };
    if !all_digits(ip) || !all_digits(fp) {
        return None;
    }
    if ip.len() == 0 && fp.len() == 0 {
        return None;
    }
    if fp.len() > 2 {
        return None;
    }
    let ip_val = digits_value_capped(ip);
    if ip_val > 2 {
        // an integer part above 2 puts the total over 2.00 whatever the
        // fraction says, including the capped over-1000 report
        return None;
    }
    let fp_val = digits_value_capped(fp);
    proof {
        // a fraction of at most two digits is at most 99, hence exact
        lemma_digits_value_small(fp@);
    }
    let scale: u64 = if fp.len() == 1 {
        10
    } else {
        1
    };
    let total = ip_val * 100 + fp_val * scale;
    if total > 200 {
        None
    } else {
        Some(total as u32)
    }
}

/// The message parses to `cmd`: its tokens have one of the recognised
/// shapes and `cmd` carries the shape's payload.
pub open spec fn spec_command_matches(toks: Seq<Seq<u8>>, cmd: ControlCommand) -> bool {
    match cmd {
        ControlCommand::Play => toks == seq![spec_word_play()],
        ControlCommand::Stop => toks == seq![spec_word_stop()],
        ControlCommand::Toggle => toks == seq![spec_word_toggle()],
        ControlCommand::VolumeUp => toks == seq![spec_word_volume(), spec_word_up()],
        ControlCommand::VolumeDown => toks == seq![spec_word_volume(), spec_word_down()],
        ControlCommand::SetVolume(v) => toks.len() == 2 && toks[0] == spec_word_volume()
            && toks[1] != spec_word_up() && toks[1] != spec_word_down() && v >= 0
            && spec_parse_volume(toks[1]) == Some(v as u32),
        ControlCommand::TuneNext => toks == seq![spec_word_tune(), spec_word_next()],
        ControlCommand::TunePrev => toks == seq![spec_word_tune(), spec_word_prev()],
        ControlCommand::Tune(id) => toks.len() == 2 && toks[0] == spec_word_tune() && toks[1]
            != spec_word_next() && toks[1] != spec_word_prev() && spec_all_ascii(toks[1]) && id@
            =~= toks[1].map(|_i: int, b: u8| b as char),
        ControlCommand::SelectUp => toks == seq![spec_word_select(), spec_word_up()],
        ControlCommand::SelectDown => toks == seq![spec_word_select(), spec_word_down()],
        _ => false,
    }
}

/// Some recognised command shape fits these tokens.
pub open spec fn spec_command_exists(toks: Seq<Seq<u8>>) -> bool {
    ||| toks == seq![spec_word_play()]
    ||| toks == seq![spec_word_stop()]
    ||| toks == seq![spec_word_toggle()]
    ||| (toks.len() == 2 && toks[0] == spec_word_volume() && (toks[1] == spec_word_up() || toks[1]
        == spec_word_down() || spec_parse_volume(toks[1]) is Some))
    ||| (toks.len() == 2 && toks[0] == spec_word_tune() && (toks[1] == spec_word_next() || toks[1]
        == spec_word_prev() || spec_all_ascii(toks[1])))
    ||| (toks.len() == 2 && toks[0] == spec_word_select() && (toks[1] == spec_word_up() || toks[1]
        == spec_word_down()))
}

pub open spec fn spec_word_play() -> Seq<u8> {
    seq!['p' as u8, 'l' as u8, 'a' as u8, 'y' as u8]
}

pub open spec fn spec_word_stop() -> Seq<u8> {
    seq!['s' as u8, 't' as u8, 'o' as u8, 'p' as u8]
}

pub open spec fn spec_word_toggle() -> Seq<u8> {
    seq!['t' as u8, 'o' as u8, 'g' as u8, 'g' as u8, 'l' as u8, 'e' as u8]
}

pub open spec fn spec_word_volume() -> Seq<u8> {
    seq!['v' as u8, 'o' as u8, 'l' as u8, 'u' as u8, 'm' as u8, 'e' as u8]
}

pub open spec fn spec_word_tune() -> Seq<u8> {
    seq!['t' as u8, 'u' as u8, 'n' as u8, 'e' as u8]
}

pub open spec fn spec_word_select() -> Seq<u8> {
    seq!['s' as u8, 'e' as u8, 'l' as u8, 'e' as u8, 'c' as u8, 't' as u8]
}

pub open spec fn spec_word_up() -> Seq<u8> {
    seq!['u' as u8, 'p' as u8]
}

pub open spec fn spec_word_down() -> Seq<u8> {
    seq!['d' as u8, 'o' as u8, 'w' as u8, 'n' as u8]
}

pub open spec fn spec_word_next() -> Seq<u8> {
    seq!['n' as u8, 'e' as u8, 'x' as u8, 't' as u8]
}

pub open spec fn spec_word_prev() -> Seq<u8> {
    seq!['p' as u8, 'r' as u8, 'e' as u8, 'v' as u8]
}

/// Parse one datagram into a command: lower its ASCII case, tokenize,
/// and match the recognised shapes; `None` means the message is dropped.
pub fn parse_command(input: &[u8]) -> (r: Option<ControlCommand>)
    ensures
        ({
            let toks = spec_tokens(spec_lower(input@));
            &&& (r is Some <==> spec_command_exists(toks))
            &&& (r matches Some(cmd) ==> spec_command_matches(toks, cmd))
        }),
{
    let lowered = lower_bytes(input);
    let ghost toks = spec_tokens(spec_lower(input@));
    let (tok1, rest1) = match next_token(lowered.as_slice()) {
        None => {
            return None;
        },
        Some(pair) => pair,
    };
    let (tok2, rest2) = match next_token(rest1) {
        None => {
            // a single token
            proof {
                assert(toks =~= seq![tok1@]);
            }
            let w_play = vec![112u8, 108u8, 97u8, 121u8];
            if bytes_eq(tok1, w_play.as_slice()) {
                proof {
                    assert(toks =~= seq![spec_word_play()]);
                }
                return Some(ControlCommand::Play);
            }
            let w_stop = vec![115u8, 116u8, 111u8, 112u8];
            if bytes_eq(tok1, w_stop.as_slice()) {
                proof {
                    assert(toks =~= seq![spec_word_stop()]);
                }
                return Some(ControlCommand::Stop);
            }
            let w_toggle = vec![116u8, 111u8, 103u8, 103u8, 108u8, 101u8];
            if bytes_eq(tok1, w_toggle.as_slice()) {
                proof {
                    assert(toks =~= seq![spec_word_toggle()]);
                }
                return Some(ControlCommand::Toggle);
            }
            return None;
        },
        Some(pair) => pair,
    };
    if let Some(_) = next_token(rest2) {
        // three or more tokens fit no shape
        proof {
            assert(toks.len() >= 3);
        }
        return None;
    }
    // exactly two tokens
    proof {
        assert(toks =~= seq![tok1@, tok2@]);
    }
    let w_up = vec![117u8, 112u8];
    let w_down = vec![100u8, 111u8, 119u8, 110u8];
    let w_volume = vec![118u8, 111u8, 108u8, 117u8, 109u8, 101u8];
    if bytes_eq(tok1, w_volume.as_slice()) {
        if bytes_eq(tok2, w_up.as_slice()) {
            return Some(ControlCommand::VolumeUp);
        }
        if bytes_eq(tok2, w_down.as_slice()) {
            return Some(ControlCommand::VolumeDown);
        }
        return match parse_volume(tok2) {
            Some(v) => Some(ControlCommand::SetVolume(v as i32)),
            None => None,
        };
    }
    let w_tune = vec![116u8, 117u8, 110u8, 101u8];
    if bytes_eq(tok1, w_tune.as_slice()) {
        let w_next = vec![110u8, 101u8, 120u8, 116u8];
        if bytes_eq(tok2, w_next.as_slice()) {
            return Some(ControlCommand::TuneNext);
        }
        let w_prev = vec![112u8, 114u8, 101u8, 118u8];
        if bytes_eq(tok2, w_prev.as_slice()) {
            return Some(ControlCommand::TunePrev);
        }
        if !all_ascii(tok2) {
            return None;
        }
        let id = ascii_bytes_to_string(tok2);
        proof {
            assert(id@ =~= tok2@.map(|_i: int, b: u8| b as char));
        }
        return Some(ControlCommand::Tune(id));
    }
    let w_select = vec![115u8, 101u8, 108u8, 101u8, 99u8, 116u8];
    if bytes_eq(tok1, w_select.as_slice()) {
        if bytes_eq(tok2, w_up.as_slice()) {
            return Some(ControlCommand::SelectUp);
        }
        if bytes_eq(tok2, w_down.as_slice()) {
            return Some(ControlCommand::SelectDown);
        }
        return None;
    }
    None
}

} // verus!
