//! Front-end message records: the richer command set an external client
//! can send, and the event records that carry captured images out,
//! base64-encoded.

use vstd::prelude::*;
use vstd::string::StringExecFns;

use crate::detect::{spec_stage_label, Stage};
use crate::message::{spec_fold_char, spec_label_matches};

verus! {

/// Commands an external client can send.
#[derive(Clone, Copy, Debug, PartialEq, Eq, Structural)]
pub enum IncomingMessage {
    GetListPot,
    GetAutoWater,
    GetAutoCheck,
    SetAutoWater(bool),
    SetAutoCheck(bool),
    Goto { x: u32, y: u32 },
    SetPot { x: u32, y: u32 },
    RemovePot { x: u32, y: u32 },
    Water { x: u32, y: u32 },
    Check { x: u32, y: u32 },
    GetAllWater { x: u32, y: u32 },
    GetAllCheck { x: u32, y: u32 },
    GetLastWater { x: u32, y: u32 },
    GetLastCheck { x: u32, y: u32 },
    Shutdown,
}

/// Events and query responses sent to an external client; images travel
/// as base64 text.
#[derive(Clone, Debug)]
pub enum OutgoingMessage {
    AutoWater { state: bool },
    AutoCheck { state: bool },
    Pot { x: u32, y: u32 },
    Water { x: u32, y: u32, timestamp: u64 },
    Check {
        x: u32,
        y: u32,
        top: u32,
        left: u32,
        bottom: u32,
        right: u32,
        stage: Stage,
        image: String,
        timestamp: u64,
    },
    Capture { x: u32, y: u32, image: String, timestamp: u64 },
}

/// One captured frame: where it was taken, the encoded image bytes, and
/// when.
#[derive(Clone, Debug)]
pub struct CaptureResult {
    pub x: u32,
    pub y: u32,
    pub image: Vec<u8>,
    pub timestamp: i64,
}

/// One completed watering: where and when.
#[derive(Clone, Debug)]
pub struct WaterResult {
    pub x: u32,
    pub y: u32,
    pub timestamp: u64,
    pub image: Vec<u8>,
}

/// One completed check with its annotated image: where, the detected box
/// edges, the stage seen, the image bytes, and when.
#[derive(Clone, Debug)]
pub struct DetectResult {
    pub x: u32,
    pub y: u32,
    pub top: u32,
    pub left: u32,
    pub right: u32,
    pub bottom: u32,
    pub stage: Stage,
    pub image: Vec<u8>,
    pub timestamp: u64,
}

/// A field of a detection file name that does not parse.
#[derive(Clone, Copy, Debug, PartialEq, Eq, Structural)]
pub struct ParseError;

/// The fields of a character string split on a separator; splitting the
/// empty string yields one empty field.
pub open spec fn spec_split(s: Seq<char>, sep: char) -> Seq<Seq<char>>
    decreases s.len(),
{
    if s.len() == 0 {
        seq![Seq::<char>::empty()]
    } else {
        let prev = spec_split(s.drop_last(), sep);
        if s.last() == sep {
            prev.push(Seq::<char>::empty())
        } else {
            prev.update(prev.len() - 1, prev.last().push(s.last()))
        }
    }
}

/// A decimal digit.
pub open spec fn spec_is_digit(c: char) -> bool {
    48 <= c as u32 <= 57
}

/// Every character a decimal digit.
pub open spec fn spec_all_digits(s: Seq<char>) -> bool {
    forall|i: int| 0 <= i < s.len() ==> spec_is_digit(#[trigger] s[i])
}

/// The value of a digit string.
pub open spec fn spec_digits_val(s: Seq<char>) -> int
    decreases s.len(),
{
    if s.len() == 0 {
        0
    } else {
        spec_digits_val(s.drop_last()) * 10 + (s.last() as u32 - 48)
    }
}

/// What a numeric field parses to: its value when it is a pure, in-range
/// digit string, nothing otherwise.
pub open spec fn spec_parse_u32(s: Seq<char>) -> Option<u32> {
    if s.len() > 0 && spec_all_digits(s) && spec_digits_val(s) <= u32::MAX {
        Some(spec_digits_val(s) as u32)
    } else {
        None
    }
}

/// As `spec_parse_u32`, at the wider range.
pub open spec fn spec_parse_u64(s: Seq<char>) -> Option<u64> {
    if s.len() > 0 && spec_all_digits(s) && spec_digits_val(s) <= u64::MAX {
        Some(spec_digits_val(s) as u64)
    } else {
        None
    }
}

/// The value of a digit string is never negative.
proof fn lemma_digits_val_nonneg(s: Seq<char>)
    requires
        spec_all_digits(s),
    ensures
        spec_digits_val(s) >= 0,
    decreases s.len(),
{
    if s.len() > 0 {
        assert(spec_all_digits(s.drop_last())) by {
            assert(forall|i: int|
                0 <= i < s.drop_last().len() ==> #[trigger] s.drop_last()[i] == s[i]);
        }
        lemma_digits_val_nonneg(s.drop_last());
        assert(spec_is_digit(s.last()));
    }
}

/// A digit string is worth at least any of its prefixes.
proof fn lemma_digits_val_monotone(s: Seq<char>, i: int)
    requires
        spec_all_digits(s),
        0 <= i <= s.len(),
    ensures
        spec_digits_val(s.take(i)) <= spec_digits_val(s),
    decreases s.len() - i,
{
    if i < s.len() {
        lemma_digits_val_monotone(s, i + 1);
        assert(s.take(i + 1).drop_last() =~= s.take(i));
        assert(spec_all_digits(s.take(i))) by {
            assert(forall|j: int| 0 <= j < i ==> #[trigger] s.take(i)[j] == s[j]);
        }
        lemma_digits_val_nonneg(s.take(i));
        assert(spec_is_digit(s[i]));
        assert(spec_digits_val(s.take(i + 1)) == spec_digits_val(s.take(i)) * 10 + (s[i] as u32
            - 48));
    } else {
        assert(s.take(i) =~= s);
    }
}

/// Parses a pure decimal field into the unsigned range, widest first.
fn parse_digits(field: &Vec<char>) -> (r: Option<u64>)
    ensures
        r == spec_parse_u64(field@),
{
    if field.len() == 0 {
        return None;
    }
    let mut acc: u64 = 0;
    let mut i: usize = 0;
    while i < field.len()
        invariant
            i <= field@.len(),
            spec_all_digits(field@.take(i as int)),
            acc == spec_digits_val(field@.take(i as int)),
        decreases field@.len() - i,
    {
        let c = field[i];
        let v = c as u32;
        if v < 48 || v > 57 {
            return None;
        }
        let d: u64 = (v - 48) as u64;
        let wide: u128 = (acc as u128) * 10 + (d as u128);
        proof {
            assert(field@.take(i as int + 1).drop_last() =~= field@.take(i as int));
            assert forall|j: int| 0 <= j < i + 1 implies spec_is_digit(
                #[trigger] field@.take(i as int + 1)[j],
            ) by {
                if j < i {
                    assert(field@.take(i as int + 1)[j] == field@.take(i as int)[j]);
                } else {
                    assert(field@.take(i as int + 1)[j] == c);
                }
            }
        }
        if wide > u64::MAX as u128 {
            proof {
                if spec_all_digits(field@) {
                    lemma_digits_val_monotone(field@, i as int + 1);
                }
            }
            return None;
        }
        acc = wide as u64;
        i = i + 1;
    }
    proof {
        assert(field@.take(field@.len() as int) =~= field@);
    }
    Some(acc)
}

/// Parses a pure decimal field into the narrow range.
fn parse_u32_field(field: &Vec<char>) -> (r: Option<u32>)
    ensures
        r == spec_parse_u32(field@),
{
    match parse_digits(field) {
        Some(v) => {
            proof {
                assert(spec_parse_u64(field@) == Some(v));
                lemma_digits_val_nonneg(field@);
            }
            if v <= u32::MAX as u64 {
                Some(v as u32)
            } else {
                None
            }
        },
        None => {
            proof {
                assert(spec_parse_u64(field@) is None);
                if field@.len() > 0 && spec_all_digits(field@) && spec_digits_val(field@)
                    <= u32::MAX {
                }
            }
            None
        },
    }
}

/// The stage a file-name stage field reads back as, folding ASCII case:
/// each known label maps to its own variant, anything else to nothing.
pub open spec fn spec_parsed_stage(s: Seq<char>) -> Option<Stage> {
    if spec_label_matches(s, "young"@) {
        Some(Stage::Young)
    } else if spec_label_matches(s, "ready"@) {
        Some(Stage::Ready)
    } else if spec_label_matches(s, "old"@) {
        Some(Stage::Old)
    } else if spec_label_matches(s, "empty"@) {
        Some(Stage::Empty)
    } else if spec_label_matches(s, "unknown"@) {
        Some(Stage::Unknown)
    } else {
        None
    }
}

/// Whether all nine fields of a detection name parse: a known stage label
/// and pure, in-range decimal numbers.
pub open spec fn spec_name_fields_ok(fields: Seq<Seq<char>>) -> bool {
    &&& spec_parsed_stage(fields[1]) is Some
    &&& spec_parse_u32(fields[2]) is Some
    &&& spec_parse_u32(fields[3]) is Some
    &&& spec_parse_u32(fields[4]) is Some
    &&& spec_parse_u32(fields[5]) is Some
    &&& spec_parse_u32(fields[6]) is Some
    &&& spec_parse_u32(fields[7]) is Some
    &&& spec_parse_u64(fields[8]) is Some
}

/// Parses a stage field into its stage, folding ASCII case.
fn parse_stage(field: &Vec<char>) -> (r: Option<Stage>)
    ensures
        r == spec_parsed_stage(field@),
{
    if label_matches(field, "young") {
        Some(Stage::Young)
    } else if label_matches(field, "ready") {
        Some(Stage::Ready)
    } else if label_matches(field, "old") {
        Some(Stage::Old)
    } else if label_matches(field, "empty") {
        Some(Stage::Empty)
    } else if label_matches(field, "unknown") {
        Some(Stage::Unknown)
    } else {
        None
    }
}

/// Compares a field against a label, folding ASCII case.
fn label_matches(field: &Vec<char>, label: &str) -> (r: bool)
    ensures
        r == spec_label_matches(field@, label@),
{
    let n = label.unicode_len();
    if field.len() != n {
        return false;
    }
    let mut i: usize = 0;
    while i < n
        invariant
            i <= n,
            n == label@.len(),
            field@.len() == n,
            forall|j: int|
                0 <= j < i ==> spec_fold_char(#[trigger] field@[j]) == spec_fold_char(label@[j]),
        decreases n - i,
    {
        let a = field[i] as u32;
        let b = label.get_char(i) as u32;
        let fa = if 65 <= a && a <= 90 {
            a + 32
        } else {
            a
        };
        let fb = if 65 <= b && b <= 90 {
            b + 32
        } else {
            b
        };
        if fa != fb {
            return false;
        }
        proof {
            assert(spec_fold_char(field@[i as int]) == spec_fold_char(label@[i as int]));
        }
        i = i + 1;
    }
    true
}

impl DetectResult {
    /// Reads a detection record back out of a stored file name. A name
    /// with other than nine `-`-separated fields is not a detection file
    /// and reads as nothing. Nine well-formed fields — a known stage
    /// label, whatever its case, and pure decimal numbers — always read
    /// back as the record they spell, with the image bytes left empty for
    /// the caller to load from the file itself; a nine-field name with
    /// any other content is malformed.
    pub fn parse_name(file_name: &str) -> (r: Result<Option<DetectResult>, ParseError>)
        ensures
            ({
                let fields = spec_split(file_name@, '-');
                &&& (fields.len() != 9 ==> r == Ok::<Option<DetectResult>, ParseError>(
                    Option::None,
                ))
                &&& (fields.len() == 9 && !spec_name_fields_ok(fields) ==> r is Err)
                &&& (fields.len() == 9 && spec_name_fields_ok(fields) ==> (r matches Ok(Some(d))
                    && {
                    &&& spec_parsed_stage(fields[1]) == Some(d.stage)
                    &&& spec_parse_u32(fields[2]) == Some(d.x)
                    &&& spec_parse_u32(fields[3]) == Some(d.y)
                    &&& spec_parse_u32(fields[4]) == Some(d.top)
                    &&& spec_parse_u32(fields[5]) == Some(d.left)
                    &&& spec_parse_u32(fields[6]) == Some(d.right)
                    &&& spec_parse_u32(fields[7]) == Some(d.bottom)
                    &&& spec_parse_u64(fields[8]) == Some(d.timestamp)
                    &&& d.image@ == Seq::<u8>::empty()
                }))
            }),
    {
        let n = file_name.unicode_len();
        let mut fields: Vec<Vec<char>> = Vec::new();
        let mut cur: Vec<char> = Vec::new();
        let mut i: usize = 0;
        proof {
            assert(file_name@.take(0) =~= Seq::<char>::empty());
            assert(fields.deep_view() + seq![cur@] =~~= spec_split(file_name@.take(0), '-'));
        }
        while i < n
            invariant
                i <= n,
                n == file_name@.len(),
                spec_split(file_name@.take(i as int), '-') == fields.deep_view() + seq![cur@],
            decreases n - i,
        {
            let c = file_name.get_char(i);
            let ghost pre_fields = fields.deep_view();
            let ghost pre_cur = cur@;
            proof {
                assert(file_name@.take(i as int + 1).drop_last() =~= file_name@.take(i as int));
            }
            if c == '-' {
                fields.push(cur);
                cur = Vec::new();
                proof {
                    assert(fields.deep_view() =~~= pre_fields.push(pre_cur));
                    assert(spec_split(file_name@.take(i as int + 1), '-') =~~= fields.deep_view()
                        + seq![cur@]);
                }
            } else {
                cur.push(c);
                proof {
                    assert((pre_fields + seq![pre_cur]).last() == pre_cur);
                    assert(fields.deep_view() =~~= pre_fields);
                    assert(cur@ =~= pre_cur.push(c));
                    assert((pre_fields + seq![pre_cur]).update(
                        (pre_fields + seq![pre_cur]).len() - 1,
                        pre_cur.push(c),
                    ) =~~= pre_fields + seq![cur@]);
                    assert(spec_split(file_name@.take(i as int + 1), '-') =~~= fields.deep_view()
                        + seq![cur@]);
                }
            }
            i = i + 1;
        }
        let ghost done_fields = fields.deep_view();
        let ghost done_cur = cur@;
        fields.push(cur);
        proof {
            assert(file_name@.take(n as int) =~= file_name@);
            assert(fields.deep_view() =~~= done_fields.push(done_cur));
            assert(fields.deep_view() =~~= spec_split(file_name@, '-'));
        }
        if fields.len() != 9 {
            return Ok(None);
        }
        proof {
            assert forall|k: int| 0 <= k < 9 implies fields@[k]@ =~= spec_split(
                file_name@,
                '-',
            )[k] by {
                assert(fields.deep_view()[k] == fields@[k].deep_view());
                assert(fields@[k].deep_view() =~= fields@[k]@);
            }
        }
        let stage = match parse_stage(&fields[1]) {
            Some(v) => v,
            None => {
                return Err(ParseError);
            },
        };
        let x = match parse_u32_field(&fields[2]) {
            Some(v) => v,
            None => {
                return Err(ParseError);
            },
        };
        let y = match parse_u32_field(&fields[3]) {
            Some(v) => v,
            None => {
                return Err(ParseError);
            },
        };
        let top = match parse_u32_field(&fields[4]) {
            Some(v) => v,
            None => {
                return Err(ParseError);
            },
        };
        let left = match parse_u32_field(&fields[5]) {
            Some(v) => v,
            None => {
                return Err(ParseError);
            },
        };
        let right = match parse_u32_field(&fields[6]) {
            Some(v) => v,
            None => {
                return Err(ParseError);
            },
        };
        let bottom = match parse_u32_field(&fields[7]) {
            Some(v) => v,
            None => {
                return Err(ParseError);
            },
        };
        let timestamp = match parse_digits(&fields[8]) {
            Some(v) => v,
            None => {
                return Err(ParseError);
            },
        };
        Ok(
            Some(
                DetectResult {
                    x,
                    y,
                    top,
                    left,
                    right,
                    bottom,
                    stage,
                    image: Vec::new(),
                    timestamp,
                },
            ),
        )
    }
}

/// The character of one decimal digit.
pub open spec fn spec_digit_char(d: int) -> char {
    if d == 0 {
        '0'
    } else if d == 1 {
        '1'
    } else if d == 2 {
        '2'
    } else if d == 3 {
        '3'
    } else if d == 4 {
        '4'
    } else if d == 5 {
        '5'
    } else if d == 6 {
        '6'
    } else if d == 7 {
        '7'
    } else if d == 8 {
        '8'
    } else {
        '9'
    }
}

/// The decimal text of a number, most significant digit first.
pub open spec fn spec_decimal(n: int) -> Seq<char>
    decreases n,
{
    if n <= 9 {
        seq![spec_digit_char(n)]
    } else {
        spec_decimal(n / 10).push(spec_digit_char(n % 10))
    }
}

/// The text of one decimal digit.
fn digit_str(d: u64) -> (r: &'static str)
    requires
        d <= 9,
    ensures
        r@ == seq![spec_digit_char(d as int)],
{
    proof {
        reveal_strlit("0");
        reveal_strlit("1");
        reveal_strlit("2");
        reveal_strlit("3");
        reveal_strlit("4");
        reveal_strlit("5");
        reveal_strlit("6");
        reveal_strlit("7");
        reveal_strlit("8");
        reveal_strlit("9");
    }
    match d {
        0 => "0",
        1 => "1",
        2 => "2",
        3 => "3",
        4 => "4",
        5 => "5",
        6 => "6",
        7 => "7",
        8 => "8",
        _ => "9",
    }
}

/// Appends the decimal text of `n`.
fn push_decimal(s: &mut String, n: u64)
    ensures
        final(s)@ == old(s)@ + spec_decimal(n as int),
    decreases n,
{
    if n <= 9 {
        let ghost before = s@;
        s.append(digit_str(n));
        proof {
            assert(s@ =~= before + spec_decimal(n as int));
        }
    } else {
        push_decimal(s, n / 10);
        let ghost mid = s@;
        s.append(digit_str(n % 10));
        proof {
            assert(s@ =~= old(s)@ + spec_decimal(n as int));
        }
    }
}

/// The file name a detection record is stored under: the fixed prefix,
/// the stage label and the seven numbers, dash-separated, with the image
/// extension.
pub open spec fn spec_detect_name(d: DetectResult) -> Seq<char> {
    "Detected-"@ + spec_stage_label(d.stage) + "-"@ + spec_decimal(d.x as int) + "-"@
        + spec_decimal(d.y as int) + "-"@ + spec_decimal(d.top as int) + "-"@ + spec_decimal(
        d.left as int,
    ) + "-"@ + spec_decimal(d.right as int) + "-"@ + spec_decimal(d.bottom as int) + "-"@
        + spec_decimal(d.timestamp as int) + ".jpg"@
}

impl DetectResult {
    /// The file name this record is stored under; writing the image file
    /// itself is the caller's job.
    pub fn save_name(&self) -> (name: String)
        ensures
            name@ == spec_detect_name(*self),
    {
        let mut s: String = "Detected-".to_owned();
        let label = self.stage.label();
        s.append(label.as_str());
        s.append("-");
        push_decimal(&mut s, self.x as u64);
        s.append("-");
        push_decimal(&mut s, self.y as u64);
        s.append("-");
        push_decimal(&mut s, self.top as u64);
        s.append("-");
        push_decimal(&mut s, self.left as u64);
        s.append("-");
        push_decimal(&mut s, self.right as u64);
        s.append("-");
        push_decimal(&mut s, self.bottom as u64);
        s.append("-");
        push_decimal(&mut s, self.timestamp);
        s.append(".jpg");
        proof {
            assert(s@ =~= spec_detect_name(*self));
        }
        s
    }
}

/// The base64 text of a byte string under the standard alphabet; a
/// function of the bytes alone.
pub uninterp spec fn base64_of(bytes: Seq<u8>) -> Seq<char>;

/// Relies on base64's `Engine::encode` with the standard padded alphabet:
/// the encoding depends on the bytes alone, and emits four characters per
/// started group of three input bytes.
#[verifier::external_body]
fn base64_encode(bytes: &Vec<u8>) -> (r: String)
    ensures
        r@ == base64_of(bytes@),
        r@.len() == 4 * ((bytes@.len() + 2) / 3),
{
    base64::Engine::encode(&base64::prelude::BASE64_STANDARD, bytes)
}

impl OutgoingMessage {
    /// The capture event for one captured frame; the image bytes go out
    /// base64-encoded, and a pre-epoch timestamp is clamped to zero.
    pub fn from_capture(value: &CaptureResult) -> (m: OutgoingMessage)
        ensures
            m matches (OutgoingMessage::Capture { x, y, image, timestamp }) && x == value.x && y
                == value.y && image@ == base64_of(value.image@) && timestamp == (
            if value.timestamp >= 0 {
                value.timestamp as u64
            } else {
                0u64
            }),
    {
        let timestamp: u64 = if value.timestamp >= 0 {
            value.timestamp as u64
        } else {
            0
        };
        OutgoingMessage::Capture { x: value.x, y: value.y, image: base64_encode(&value.image), timestamp }
    }

    /// The check event for one completed check; the annotated image goes
    /// out base64-encoded.
    pub fn from_detect(value: &DetectResult) -> (m: OutgoingMessage)
        ensures
            m matches (OutgoingMessage::Check { x, y, top, left, bottom, right, stage, image, timestamp })
                && x == value.x && y == value.y && top == value.top && left == value.left && bottom
                == value.bottom && right == value.right && stage == value.stage && image@
                == base64_of(value.image@) && timestamp == value.timestamp,
    {
        OutgoingMessage::Check {
            x: value.x,
            y: value.y,
            top: value.top,
            left: value.left,
            bottom: value.bottom,
            right: value.right,
            stage: value.stage,
            image: base64_encode(&value.image),
            timestamp: value.timestamp,
        }
    }

    /// The watering event for one completed watering.
    pub fn from_water(value: &WaterResult) -> (m: OutgoingMessage)
        ensures
            m matches (OutgoingMessage::Water { x, y, timestamp }) && x == value.x && y == value.y
                && timestamp == value.timestamp,
    {
        OutgoingMessage::Water { x: value.x, y: value.y, timestamp: value.timestamp }
    }
}

} // verus!
