//! Timecodes of the form `HH:MM:SS:FF` at a whole number of frames per
//! second: writing a frame count as a timecode, and reading it back.

use crate::numeral::{
    append_decimal, decimal_digits, is_numeral, lemma_decimal_digits, lemma_leading_zero,
    numeral_value, read_numeral, Reading,
};
use crate::pattern::{
    colon_joined, is_plain_timecode_of, regex_captures, search, timecode_pattern,
    timecode_pattern_text,
};
use vstd::arithmetic::div_mod::lemma_fundamental_div_mod;
use vstd::prelude::*;
use vstd::string::*;

verus! {

/// Why a timecode could not be read, or a timeline not be built.
#[derive(Clone, Copy, Debug, PartialEq, Eq, Structural)]
pub enum TimecodeError {
    /// The text holds no four numerals joined by colons.
    InvalidTimecode,
    /// A number does not fit in 64 bits.
    OutOfRange,
    /// A clip has zero whole frames per second.
    ZeroFrameRate,
}

/// `n` without its sign.
pub open spec fn magnitude(n: int) -> int {
    if n < 0 {
        -n
    } else {
        n
    }
}

/// The quotient of `a` by `b`, rounded toward zero.
pub open spec fn quotient(a: int, b: int) -> int {
    if a >= 0 && b > 0 {
        a / b
    } else if a >= 0 {
        -(a / (-b))
    } else if b > 0 {
        -((-a) / b)
    } else {
        (-a) / (-b)
    }
}

/// What is left of `a` after taking out whole multiples of `b`; it has the
/// sign of `a`.
pub open spec fn remainder(a: int, b: int) -> int {
    if a >= 0 && b > 0 {
        a % b
    } else if a >= 0 {
        a % (-b)
    } else if b > 0 {
        -((-a) % b)
    } else {
        -((-a) % (-b))
    }
}

/// One field of a timecode: the digits of `n`, with a zero in front where
/// there is only one, and with a minus sign in front of a negative number.
pub open spec fn field_text(n: int) -> Seq<char> {
    if n < 0 {
        seq!['-'] + decimal_digits((-n) as nat)
    } else if n < 10 {
        seq!['0'] + decimal_digits(n as nat)
    } else {
        decimal_digits(n as nat)
    }
}

/// Whether `encode` can write `total_frames` at `fps` frames per second:
/// the rate is not zero and the division does not leave 64 bits.
pub open spec fn can_encode(total_frames: int, fps: int) -> bool {
    fps != 0 && !(total_frames == i64::MIN && fps == -1)
}

/// The timecode of `total_frames` at `fps` frames per second: hours,
/// minutes, seconds and frames, where the hours are not cut off at a day.
pub open spec fn encode_spec(total_frames: int, fps: int) -> Seq<char> {
    let total_seconds = quotient(total_frames, fps);
    colon_joined(
        field_text(quotient(total_seconds, 3600)),
        field_text(remainder(quotient(total_seconds, 60), 60)),
        field_text(remainder(total_seconds, 60)),
        field_text(remainder(total_frames, fps)),
    )
}

/// Writes one field of a timecode at the end of `out`.
fn append_field(out: &mut String, n: i64)
    ensures
        final(out)@ == old(out)@ + field_text(n as int),
{
    proof {
        reveal_strlit("-");
        reveal_strlit("0");
    }
    if n < 0 {
        out.append("-");
        let wide: i128 = -(n as i128);
        append_decimal(out, wide as u64);
    } else {
        if n < 10 {
            out.append("0");
        }
        append_decimal(out, n as u64);
    }
}

/// `n` without its sign.
fn magnitude_of(n: i64) -> (m: i128)
    ensures
        m == magnitude(n as int),
{
    if n < 0 {
        -(n as i128)
    } else {
        n as i128
    }
}

/// The quotient of `a` by `b`, rounded toward zero.
fn quotient_of(a: i64, b: i64) -> (q: i64)
    requires
        can_encode(a as int, b as int),
    ensures
        q == quotient(a as int, b as int),
{
    let size = magnitude_of(a);
    let unit = magnitude_of(b);
    let q = size / unit;
    assert(0 <= q <= size) by (nonlinear_arith)
        requires
            q == size / unit,
            size >= 0,
            unit >= 1,
    ;
    assert(unit >= 2 ==> 2 * q <= size) by (nonlinear_arith)
        requires
            q == size / unit,
            size >= 0,
            unit >= 1,
    ;
    if (a < 0) != (b < 0) {
        (-q) as i64
    } else {
        q as i64
    }
}

/// What is left of `a` after taking out whole multiples of `b`.
fn remainder_of(a: i64, b: i64) -> (r: i64)
    requires
        b != 0,
    ensures
        r == remainder(a as int, b as int),
{
    let size = magnitude_of(a);
    let unit = magnitude_of(b);
    let r = size % unit;
    if a < 0 {
        (-r) as i64
    } else {
        r as i64
    }
}

/// Writes `total_frames` as a timecode at `fps` whole frames per second.
pub fn encode(total_frames: i64, fps: i64) -> (text: String)
    requires
        can_encode(total_frames as int, fps as int),
    ensures
        text@ == encode_spec(total_frames as int, fps as int),
{
    let total_seconds = quotient_of(total_frames, fps);
    let hours = quotient_of(total_seconds, 3600);
    let minutes = remainder_of(quotient_of(total_seconds, 60), 60);
    let seconds = remainder_of(total_seconds, 60);
    let frames = remainder_of(total_frames, fps);
    proof {
        reveal_strlit(":");
    }
    let mut text = String::new();
    append_field(&mut text, hours);
    text.append(":");
    append_field(&mut text, minutes);
    text.append(":");
    append_field(&mut text, seconds);
    text.append(":");
    append_field(&mut text, frames);
    text
}

/// The frame count of the four fields of a timecode at `fps` frames per
/// second: `(hours * 3600 + minutes * 60 + seconds) * fps + frames`.  The
/// frames field is not held below `fps`.
pub open spec fn frames_of_fields(
    hours: Seq<char>,
    minutes: Seq<char>,
    seconds: Seq<char>,
    frames: Seq<char>,
    fps: int,
) -> Result<i64, TimecodeError> {
    if !(is_numeral(hours) && is_numeral(minutes) && is_numeral(seconds) && is_numeral(frames)) {
        Err(TimecodeError::InvalidTimecode)
    } else if numeral_value(hours) > i64::MAX || numeral_value(minutes) > i64::MAX
        || numeral_value(seconds) > i64::MAX || numeral_value(frames) > i64::MAX {
        Err(TimecodeError::OutOfRange)
    } else {
        let total = (numeral_value(hours) * 3600 + numeral_value(minutes) * 60 + numeral_value(
            seconds,
        )) * fps + numeral_value(frames);
        if i64::MIN <= total <= i64::MAX {
            Ok(total as i64)
        } else {
            Err(TimecodeError::OutOfRange)
        }
    }
}

/// The frame count of what a search for the timecode pattern found.
pub open spec fn frames_of_captures(found: Option<Seq<Option<Seq<char>>>>, fps: int) -> Result<
    i64,
    TimecodeError,
> {
    match found {
        Some(groups) => if groups.len() == 5 && groups[1] is Some && groups[2] is Some
            && groups[3] is Some && groups[4] is Some {
            frames_of_fields(groups[1]->0, groups[2]->0, groups[3]->0, groups[4]->0, fps)
        } else {
            Err(TimecodeError::InvalidTimecode)
        },
        None => Err(TimecodeError::InvalidTimecode),
    }
}

/// Whether `text` is, from its first character to its last, four numerals
/// joined by colons.
pub open spec fn is_plain_timecode(text: Seq<char>) -> bool {
    exists|hours: Seq<char>, minutes: Seq<char>, seconds: Seq<char>, frames: Seq<char>|
        #[trigger] is_plain_timecode_of(text, hours, minutes, seconds, frames)
}

/// The four numerals of a plain timecode.
pub open spec fn plain_fields(text: Seq<char>) -> (Seq<char>, Seq<char>, Seq<char>, Seq<char>) {
    choose|hours: Seq<char>, minutes: Seq<char>, seconds: Seq<char>, frames: Seq<char>|
        #[trigger] is_plain_timecode_of(text, hours, minutes, seconds, frames)
}

/// The frame count that `text` stands for at `fps` frames per second.
///
/// A plain timecode is read field by field.  In any other text the fields
/// are the groups of the first place where the timecode pattern matches,
/// and a text in which it matches nowhere is no timecode.
pub open spec fn decode_spec(text: Seq<char>, fps: int) -> Result<i64, TimecodeError> {
    if is_plain_timecode(text) {
        let (hours, minutes, seconds, frames) = plain_fields(text);
        frames_of_fields(hours, minutes, seconds, frames, fps)
    } else {
        frames_of_captures(regex_captures(timecode_pattern(), text), fps)
    }
}

/// The frame count of four fields of a timecode at `fps` whole frames per
/// second.
///
/// The result is `InvalidTimecode` where a field is no numeral, and
/// `OutOfRange` where a field or the frame count does not fit in 64 bits.
pub fn frames_from_fields(hours: &str, minutes: &str, seconds: &str, frames: &str, fps: i64) -> (total:
    Result<i64, TimecodeError>)
    ensures
        total == frames_of_fields(hours@, minutes@, seconds@, frames@, fps as int),
{
    let h = read_numeral(hours);
    let m = read_numeral(minutes);
    let s = read_numeral(seconds);
    let f = read_numeral(frames);
    match (h, m, s, f) {
        (Reading::NotNumeral, _, _, _)
        | (_, Reading::NotNumeral, _, _)
        | (_, _, Reading::NotNumeral, _)
        | (_, _, _, Reading::NotNumeral) => Err(TimecodeError::InvalidTimecode),
        (Reading::Value(h), Reading::Value(m), Reading::Value(s), Reading::Value(f)) => {
            let whole_seconds: i128 = (h as i128) * 3600 + (m as i128) * 60 + (s as i128);
            if fps == 0 {
                assert(whole_seconds * 0 == 0);
                Ok(f)
            } else if whole_seconds > 0x1_0000_0000_0000_0000 {
                proof {
                    lemma_product_leaves_range(whole_seconds as int, fps as int, f as int);
                }
                Err(TimecodeError::OutOfRange)
            } else {
                proof {
                    lemma_product_bounds(whole_seconds as int, fps as int);
                }
                let total: i128 = whole_seconds * (fps as i128) + (f as i128);
                if total < i64::MIN as i128 || total > i64::MAX as i128 {
                    Err(TimecodeError::OutOfRange)
                } else {
                    Ok(total as i64)
                }
            }
        },
        _ => Err(TimecodeError::OutOfRange),
    }
}

/// A product of more than `2^64` seconds and a rate other than zero is
/// further from zero than any frames field can mend.
proof fn lemma_product_leaves_range(seconds: int, fps: int, frames: int)
    by (nonlinear_arith)
    requires
        seconds > 0x1_0000_0000_0000_0000,
        fps != 0,
        0 <= frames <= i64::MAX,
    ensures
        !(i64::MIN <= seconds * fps + frames <= i64::MAX),
{
}

/// A product of at most `2^64` seconds and a rate of 64 bits fits in 128
/// bits, with room for a frames field.
proof fn lemma_product_bounds(seconds: int, fps: int)
    by (nonlinear_arith)
    requires
        0 <= seconds <= 0x1_0000_0000_0000_0000,
        i64::MIN <= fps <= i64::MAX,
    ensures
        -0x8000_0000_0000_0000_0000_0000_0000_0000 <= seconds * fps,
        seconds * fps <= 0x7fff_ffff_ffff_ffff_0000_0000_0000_0000,
{
}

/// The frame count of what a search for the timecode pattern found, at
/// `fps` whole frames per second.
///
/// `found` holds the groups of the match, the whole match first.  Anything
/// but five groups of which the last four took part is `InvalidTimecode`.
pub fn frames_from_captures(found: &Option<Vec<Option<String>>>, fps: i64) -> (total: Result<
    i64,
    TimecodeError,
>)
    ensures
        total == frames_of_captures(found.deep_view(), fps as int),
{
    match found {
        None => Err(TimecodeError::InvalidTimecode),
        Some(groups) => {
            if groups.len() != 5 {
                return Err(TimecodeError::InvalidTimecode);
            }
            match &groups[1] {
                None => Err(TimecodeError::InvalidTimecode),
                Some(hours) => match &groups[2] {
                    None => Err(TimecodeError::InvalidTimecode),
                    Some(minutes) => match &groups[3] {
                        None => Err(TimecodeError::InvalidTimecode),
                        Some(seconds) => match &groups[4] {
                            None => Err(TimecodeError::InvalidTimecode),
                            Some(frames) => frames_from_fields(
                                hours.as_str(),
                                minutes.as_str(),
                                seconds.as_str(),
                                frames.as_str(),
                                fps,
                            ),
                        },
                    },
                },
            }
        },
    }
}

/// Reads the frame count of `timecode` at `fps` whole frames per second.
///
/// The fields are found by a search for the timecode pattern, so a
/// timecode may stand anywhere in the text, and the first one counts.
pub fn decode(timecode: &str, fps: i64) -> (total: Result<i64, TimecodeError>)
    ensures
        total == decode_spec(timecode@, fps as int),
{
    let found = search(timecode_pattern_text(), timecode);
    frames_from_captures(&found, fps)
}

/// A field written for a number that is not negative is a numeral, and it
/// stands for that number.
pub proof fn lemma_field_text_is_numeral(n: int)
    requires
        0 <= n,
    ensures
        is_numeral(field_text(n)),
        numeral_value(field_text(n)) == n,
        field_text(n).len() >= 2,
{
    lemma_decimal_digits(n as nat);
    if n < 10 {
        lemma_leading_zero(decimal_digits(n as nat));
    }
}

/// Two texts that begin with a numeral and a colon and are equal have the
/// same numeral and the same rest.
proof fn lemma_first_field_unique(
    first: Seq<char>,
    rest: Seq<char>,
    other_first: Seq<char>,
    other_rest: Seq<char>,
)
    requires
        is_numeral(first),
        is_numeral(other_first),
        first + seq![':'] + rest == other_first + seq![':'] + other_rest,
    ensures
        first == other_first,
        rest == other_rest,
{
    let text = first + seq![':'] + rest;
    let other = other_first + seq![':'] + other_rest;
    let n = first.len() as int;
    let k = other_first.len() as int;
    if n < k {
        assert(other[n] == other_first[n]);
    }
    if k < n {
        assert(text[k] == first[k]);
    }
    assert forall|i: int| 0 <= i < n implies first[i] == other_first[i] by {
        assert(other[i] == other_first[i]);
    }
    assert(other_rest =~= other.skip(k + 1));
}

/// A plain timecode has one set of fields only.
pub proof fn lemma_plain_fields_unique(
    text: Seq<char>,
    hours: Seq<char>,
    minutes: Seq<char>,
    seconds: Seq<char>,
    frames: Seq<char>,
)
    requires
        is_plain_timecode_of(text, hours, minutes, seconds, frames),
    ensures
        is_plain_timecode(text),
        plain_fields(text) == (hours, minutes, seconds, frames),
{
    let (h, m, s, f) = plain_fields(text);
    let colon = seq![':'];
    assert(colon_joined(hours, minutes, seconds, frames) =~= hours + colon + (minutes + colon
        + (seconds + colon + frames)));
    assert(colon_joined(h, m, s, f) =~= h + colon + (m + colon + (s + colon + f)));
    lemma_first_field_unique(
        hours,
        minutes + colon + (seconds + colon + frames),
        h,
        m + colon + (s + colon + f),
    );
    lemma_first_field_unique(minutes, seconds + colon + frames, m, s + colon + f);
    lemma_first_field_unique(seconds, frames, s, f);
}

/// What `encode` writes for a frame count that is not negative, at a rate
/// above zero: a plain timecode of four fields of two digits or more.  The
/// minutes and the seconds stay below sixty and the frames stay below the
/// rate; the hours take what is left, however much it is.
pub proof fn lemma_encode_fields(total_frames: int, fps: int)
    requires
        0 <= total_frames,
        0 < fps,
    ensures
        ({
            let total_seconds = total_frames / fps;
            let hours = field_text(total_seconds / 3600);
            let minutes = field_text((total_seconds / 60) % 60);
            let seconds = field_text(total_seconds % 60);
            let frames = field_text(total_frames % fps);
            &&& is_plain_timecode_of(encode_spec(total_frames, fps), hours, minutes, seconds, frames)
            &&& plain_fields(encode_spec(total_frames, fps)) == (hours, minutes, seconds, frames)
            &&& hours.len() >= 2 && minutes.len() == 2 && seconds.len() == 2 && frames.len() >= 2
            &&& numeral_value(hours) == total_seconds / 3600
            &&& numeral_value(minutes) == (total_seconds / 60) % 60
            &&& numeral_value(seconds) == total_seconds % 60
            &&& numeral_value(frames) == total_frames % fps
            &&& (numeral_value(hours) * 3600 + numeral_value(minutes) * 60 + numeral_value(seconds))
                * fps + numeral_value(frames) == total_frames
        }),
{
    let total_seconds = total_frames / fps;
    let hours = total_seconds / 3600;
    let minutes = (total_seconds / 60) % 60;
    let seconds = total_seconds % 60;
    let frames = total_frames % fps;
    lemma_fundamental_div_mod(total_frames, fps);
    assert(0 <= total_seconds <= total_frames && 0 <= frames < fps) by (nonlinear_arith)
        requires
            0 <= total_frames,
            0 < fps,
            total_seconds == total_frames / fps,
            frames == total_frames % fps,
    ;
    assert((hours * 3600 + minutes * 60 + seconds) * fps + frames == total_frames) by {
        assert(total_seconds * fps == fps * total_seconds) by (nonlinear_arith);
    }
    lemma_field_text_is_numeral(hours);
    lemma_field_text_is_numeral(minutes);
    lemma_field_text_is_numeral(seconds);
    lemma_field_text_is_numeral(frames);
    lemma_decimal_digits(minutes as nat);
    lemma_decimal_digits(seconds as nat);
    reveal_with_fuel(decimal_digits, 2);
    lemma_plain_fields_unique(
        encode_spec(total_frames, fps),
        field_text(hours),
        field_text(minutes),
        field_text(seconds),
        field_text(frames),
    );
}

/// Reading back what `encode` wrote, at the same rate, gives the frame count
/// that was written: for every frame count that is not negative and every
/// rate above zero.
pub proof fn lemma_decode_inverts_encode(total_frames: int, fps: int)
    requires
        0 <= total_frames <= i64::MAX,
        0 < fps <= i64::MAX,
    ensures
        decode_spec(encode_spec(total_frames, fps), fps) == Ok::<i64, TimecodeError>(
            total_frames as i64,
        ),
{
    lemma_encode_fields(total_frames, fps);
    let total_seconds = total_frames / fps;
    assert(0 <= total_seconds <= total_frames && 0 <= total_frames % fps < fps) by (nonlinear_arith)
        requires
            0 <= total_frames,
            0 < fps,
            total_seconds == total_frames / fps,
    ;
}

} // verus!
