//! What the window decides: which cameras a selection stands for, how much
//! of a frame the preview shows, what a log line looks like, and what the
//! list of recordings offers.
//!
//! The widgets are elsewhere. They hand in what the user chose and show
//! what comes back.

use vstd::prelude::*;
use vstd::string::*;
use crate::recorder::CameraSource;
use crate::text::name_key;

verus! {

/// Why a selection stands for no source.
#[derive(Clone, Copy, PartialEq, Eq, Structural, Debug)]
pub enum SelectionError {
    /// One camera was asked for and none is selected.
    NoCameraSelected,
    /// Two cameras were asked for and one of them is not selected.
    BothCamerasRequired,
}

impl SelectionError {
    /// What the status label shows for this error.
    pub open spec fn status_text(self) -> Seq<char> {
        match self {
            SelectionError::NoCameraSelected => "Error: No camera selected"@,
            SelectionError::BothCamerasRequired => "Error: Select both cameras"@,
        }
    }

    /// What the log says of this error.
    pub open spec fn log_text(self) -> Seq<char> {
        match self {
            SelectionError::NoCameraSelected => "Error: No camera selected for recording"@,
            SelectionError::BothCamerasRequired => "Error: Both cameras must be selected"@,
        }
    }

    /// What the status label shows for this error.
    pub fn status(&self) -> (text: &'static str)
        ensures
            text@ == self.status_text(),
    {
        match self {
            SelectionError::NoCameraSelected => "Error: No camera selected",
            SelectionError::BothCamerasRequired => "Error: Select both cameras",
        }
    }

    /// What the log says of this error.
    pub fn log_entry(&self) -> (text: &'static str)
        ensures
            text@ == self.log_text(),
    {
        match self {
            SelectionError::NoCameraSelected => "Error: No camera selected for recording",
            SelectionError::BothCamerasRequired => "Error: Both cameras must be selected",
        }
    }
}

/// The source that a selection stands for. For one camera the first device
/// must be selected, for two both must be.
pub open spec fn selected_source(single: bool, first: Option<u32>, second: Option<u32>) -> Result<
    CameraSource,
    SelectionError,
> {
    if single {
        match first {
            Some(id) => Ok(CameraSource::Single(id)),
            None => Err(SelectionError::NoCameraSelected),
        }
    } else {
        match (first, second) {
            (Some(left), Some(right)) => Ok(CameraSource::Dual(left, right)),
            _ => Err(SelectionError::BothCamerasRequired),
        }
    }
}

/// Works out the source that a selection stands for.
pub fn select_source(single: bool, first: Option<u32>, second: Option<u32>) -> (source: Result<
    CameraSource,
    SelectionError,
>)
    ensures
        source == selected_source(single, first, second),
{
    if single {
        match first {
            Some(id) => Ok(CameraSource::Single(id)),
            None => Err(SelectionError::NoCameraSelected),
        }
    } else {
        match (first, second) {
            (Some(left), Some(right)) => Ok(CameraSource::Dual(left, right)),
            _ => Err(SelectionError::BothCamerasRequired),
        }
    }
}

/// The byte is an ASCII decimal digit.
pub open spec fn is_digit(b: u8) -> bool {
    0x30 <= b <= 0x39
}

/// Every byte is an ASCII decimal digit.
pub open spec fn all_digits(digits: Seq<u8>) -> bool {
    forall|i: int| 0 <= i < digits.len() ==> is_digit(#[trigger] digits[i])
}

/// The number that a run of decimal digits writes.
pub open spec fn digits_value(digits: Seq<u8>) -> nat
    decreases digits.len(),
{
    if digits.len() == 0 {
        0
    } else {
        digits_value(digits.drop_last()) * 10 + (digits.last() - 0x30) as nat
    }
}

/// The device number that a text writes: an optional plus sign, then one or
/// more decimal digits and nothing else, with a value that fits 32 bits.
pub open spec fn camera_id_of(text: Seq<u8>) -> Option<u32> {
    let digits = if text.len() > 0 && text[0] == 0x2B {
        text.drop_first()
    } else {
        text
    };
    if digits.len() > 0 && all_digits(digits) && digits_value(digits) <= u32::MAX {
        Some(digits_value(digits) as u32)
    } else {
        None
    }
}

/// A run of digits writes no smaller a number than any of its beginnings.
pub proof fn lemma_digits_value_grows(digits: Seq<u8>, k: int)
    requires
        all_digits(digits),
        0 <= k <= digits.len(),
    ensures
        digits_value(digits.take(k)) <= digits_value(digits),
    decreases digits.len(),
{
    if k < digits.len() {
        let head = digits.drop_last();
        assert(head.take(k) == digits.take(k));
        lemma_digits_value_grows(head, k);
    } else {
        assert(digits.take(k) == digits);
    }
}

/// Reads the device number that the bytes of a text write.
pub fn parse_camera_id_bytes(text: &[u8]) -> (id: Option<u32>)
    ensures
        id == camera_id_of(text@),
{
    let start: usize = if text.len() > 0 && text[0] == 0x2B {
        1
    } else {
        0
    };
    let ghost digits = text@.subrange(start as int, text@.len() as int);
    if start >= text.len() {
        return None;
    }
    let mut value: u64 = 0;
    let mut i: usize = start;
    while i < text.len()
        invariant
            start <= i <= text.len(),
            digits == text@.subrange(start as int, text@.len() as int),
            digits == if text@.len() > 0 && text@[0] == 0x2B {
                text@.drop_first()
            } else {
                text@
            },
            all_digits(digits.take(i - start)),
            value == digits_value(digits.take(i - start)),
            value <= u32::MAX,
        decreases text.len() - i,
    {
        let b = text[i];
        if b < 0x30 || b > 0x39 {
            proof {
                assert(digits[i - start] == b);
            }
            return None;
        }
        let ghost before = digits.take(i - start);
        let ghost now = digits.take(i - start + 1);
        proof {
            assert(now.drop_last() == before);
            assert forall|j: int| 0 <= j < now.len() implies is_digit(#[trigger] now[j]) by {
                if j < before.len() {
                    assert(now[j] == before[j]);
                }
            }
        }
        value = value * 10 + (b - 0x30) as u64;
        if value > u32::MAX as u64 {
            proof {
                if all_digits(digits) {
                    lemma_digits_value_grows(digits, i - start + 1);
                }
            }
            return None;
        }
        i = i + 1;
    }
    proof {
        assert(digits.take(i - start) == digits);
    }
    Some(value as u32)
}

/// Reads the device number that a text writes.
pub fn parse_camera_id(text: &str) -> (id: Option<u32>)
    ensures
        id == camera_id_of(name_key(text@)),
{
    parse_camera_id_bytes(text.as_bytes())
}

/// The device number that a selection names, if there is a selection and it
/// writes one.
pub open spec fn chosen_id(selection: Option<&str>) -> Option<u32> {
    match selection {
        Some(text) => camera_id_of(name_key(text@)),
        None => None,
    }
}

/// Works out the source from what the three selectors hold: the number of
/// cameras, where `"1"` asks for one and anything else for two, and the
/// device of each camera.
pub fn source_from_selection(count: &str, first: Option<&str>, second: Option<&str>) -> (source:
    Result<CameraSource, SelectionError>)
    ensures
        source == selected_source(count@ == "1"@, chosen_id(first), chosen_id(second)),
{
    let single = String::from_str(count) == String::from_str("1");
    let first_id = match first {
        Some(text) => parse_camera_id(text),
        None => None,
    };
    let second_id = match second {
        Some(text) => parse_camera_id(text),
        None => None,
    };
    select_source(single, first_id, second_id)
}

/// Number of leading bytes of a buffer that the preview shows as an image of
/// `width` by `height` RGB pixels: all three bytes of every pixel, provided
/// the dimensions are positive, a row fits the 32-bit stride of the image
/// and the buffer holds that many bytes.
pub open spec fn preview_len_of(buffer_len: nat, width: int, height: int) -> Option<nat> {
    if width > 0 && height > 0 && width * 3 <= i32::MAX && width * height * 3 <= buffer_len {
        Some((width * height * 3) as nat)
    } else {
        None
    }
}

/// Works out how many leading bytes of a buffer of `buffer_len` bytes the
/// preview shows.
pub fn preview_len(buffer_len: usize, width: i32, height: i32) -> (len: Option<usize>)
    ensures
        match preview_len_of(buffer_len as nat, width as int, height as int) {
            Some(n) => len == Some(n as usize),
            None => len is None,
        },
{
    if width <= 0 || height <= 0 || width > i32::MAX / 3 {
        return None;
    }
    let w: u64 = width as u64;
    let h: u64 = height as u64;
    assert(w * h * 3 <= 0x7FFF_FFFF * 0x7FFF_FFFF * 3) by (nonlinear_arith)
        requires
            0 < w <= 0x7FFF_FFFF,
            0 < h <= 0x7FFF_FFFF,
    ;
    let expected: u64 = w * h * 3;
    if expected <= buffer_len as u64 {
        Some(expected as usize)
    } else {
        None
    }
}

/// A line of the log: the time of day in square brackets, a space, the
/// message and a line feed. The time is whatever text the clock of the
/// caller wrote.
pub open spec fn log_line_of(time: Seq<char>, message: Seq<char>) -> Seq<char> {
    seq!['['] + time + seq![']', ' '] + message + seq!['\n']
}

/// Writes a line of the log.
pub fn format_log_line(time: &str, message: &str) -> (line: String)
    ensures
        line@ == log_line_of(time@, message@),
{
    let mut line = String::from_str("[");
    line.append(time);
    line.append("] ");
    line.append(message);
    line.append("\n");
    proof {
        reveal_strlit("[");
        reveal_strlit("] ");
        reveal_strlit("\n");
    }
    line
}

/// What listing the recordings gave.
#[derive(Debug)]
pub enum RecordingList {
    /// The directory could not be read.
    Unreadable,
    /// The recordings found, in the order they are offered.
    Found(Vec<String>),
}

/// One entry of the list of recordings: the key it is picked by and the
/// text it shows.
#[derive(Debug)]
pub struct Choice {
    pub id: String,
    pub label: String,
}

/// A choice as plain values.
pub struct ChoiceView {
    pub id: Seq<char>,
    pub label: Seq<char>,
}

impl View for Choice {
    type V = ChoiceView;

    open spec fn view(&self) -> ChoiceView {
        ChoiceView { id: self.id@, label: self.label@ }
    }
}

/// The entries that the list of recordings offers: each recording under its
/// own name, or a single entry `none` that says that there are none or that
/// the directory could not be read.
pub open spec fn choices_of(list: RecordingList) -> Seq<ChoiceView> {
    match list {
        RecordingList::Unreadable => seq![ChoiceView { id: "none"@, label: "Error loading"@ }],
        RecordingList::Found(names) => if names@.len() == 0 {
            seq![ChoiceView { id: "none"@, label: "No recordings"@ }]
        } else {
            Seq::new(names@.len(), |i: int| ChoiceView { id: names@[i]@, label: names@[i]@ })
        },
    }
}

/// The choices as plain values.
pub open spec fn choices_view(choices: Seq<Choice>) -> Seq<ChoiceView> {
    Seq::new(choices.len(), |i: int| choices[i]@)
}

/// Works out the entries that the list of recordings offers.
pub fn recording_choices(list: &RecordingList) -> (choices: Vec<Choice>)
    ensures
        choices_view(choices@) == choices_of(*list),
{
    let mut choices: Vec<Choice> = Vec::new();
    match list {
        RecordingList::Unreadable => {
            choices.push(
                Choice { id: String::from_str("none"), label: String::from_str("Error loading") },
            );
        },
        RecordingList::Found(names) => {
            if names.len() == 0 {
                choices.push(
                    Choice {
                        id: String::from_str("none"),
                        label: String::from_str("No recordings"),
                    },
                );
            } else {
                let mut i: usize = 0;
                while i < names.len()
                    invariant
                        i <= names.len(),
                        choices.len() == i,
                        forall|j: int|
                            0 <= j < i ==> (#[trigger] choices@[j])@ == (ChoiceView {
                                id: names@[j]@,
                                label: names@[j]@,
                            }),
                    decreases names.len() - i,
                {
                    choices.push(Choice { id: names[i].clone(), label: names[i].clone() });
                    i = i + 1;
                }
            }
        },
    }
    choices
}

} // verus!
