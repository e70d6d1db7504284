use vstd::prelude::*;
use vstd::slice::slice_subrange;
use vstd::string::StringSliceAdditionalSpecFns;
use vstd::utf8::{decode_utf8, encode_utf8_decode_utf8, valid_utf8};

use crate::bytes::append;
use crate::infra::State;
use crate::message::Trigger;

verus! {

/// Above this many bytes without a line end the buffer is given up.
pub const BUFFER_CAP: usize = 4096;

/// The latest position fix. Latitude and longitude are the bits of IEEE-754
/// double-precision degrees, the speed those of a single-precision number,
/// each as the receiver's sentence gave it.
#[derive(Clone, Copy, Debug, PartialEq, Eq, Structural)]
pub struct Reading {
    pub latitude: u64,
    pub longitude: u64,
    pub speed: Option<u32>,
}

impl Reading {
    pub fn new(latitude: u64, longitude: u64, speed: Option<u32>) -> (reading: Reading)
        ensures
            reading == (Reading { latitude, longitude, speed }),
    {
        Reading { latitude, longitude, speed }
    }
}

/// What kind of sentence a line of text is.
#[derive(Clone, Copy, Debug, PartialEq, Eq, Structural)]
pub enum SentenceKind {
    /// The sentence that carries position and speed over ground.
    Fix,
    /// Another sentence that the parser knows.
    Other,
    /// No sentence, or one that the parser refuses.
    Invalid,
}

/// A parsed line: its kind, and position and speed as far as it gave them.
#[derive(Clone, Copy, Debug, PartialEq, Eq, Structural)]
pub struct Sentence {
    pub kind: SentenceKind,
    pub latitude: Option<u64>,
    pub longitude: Option<u64>,
    pub speed: Option<u32>,
}

/// What the sentence parser makes of a line of text.
pub uninterp spec fn nmea_sentence(line: Seq<char>) -> Sentence;

/// Runs `nmea::Nmea::parse` on a line with a parser fresh from
/// `Nmea::default()`: the kind is `Fix` where it answers `SentenceType::RMC`,
/// `Other` for another sentence and `Invalid` for an error. Latitude,
/// longitude and speed over ground are read from the parser afterwards.
/// Trusted: the parser returns, and the outcome depends on the line alone.
#[verifier::external_body]
fn parse_sentence(line: &str) -> (sentence: Sentence)
    ensures
        sentence == nmea_sentence(line@),
{
    let mut parser = nmea::Nmea::default();
    let kind = match parser.parse(line) {
        Ok(nmea::SentenceType::RMC) => SentenceKind::Fix,
        Ok(_) => SentenceKind::Other,
        Err(_) => SentenceKind::Invalid,
    };
    Sentence {
        kind,
        latitude: parser.latitude().map(|degrees| degrees.to_bits()),
        longitude: parser.longitude().map(|degrees| degrees.to_bits()),
        speed: parser.speed_over_ground.map(|speed| speed.to_bits()),
    }
}

/// Runs `core::str::from_utf8`. Trusted: the text is there exactly for bytes
/// that are valid UTF-8, and its bytes are the ones given.
#[verifier::external_body]
fn utf8_text(bytes: &[u8]) -> (text: Option<&str>)
    ensures
        text is Some == valid_utf8(bytes@),
        text matches Some(s) ==> s.spec_bytes() == bytes@,
{
    core::str::from_utf8(bytes).ok()
}

/// The reading in a parsed sentence: there is one if it is a fix sentence
/// with latitude and longitude; the speed may be missing.
pub open spec fn spec_reading_of(sentence: Sentence) -> Option<Reading> {
    match (sentence.kind, sentence.latitude, sentence.longitude) {
        (SentenceKind::Fix, Some(latitude), Some(longitude)) => Some(
            Reading { latitude, longitude, speed: sentence.speed },
        ),
        _ => None,
    }
}

pub fn reading_of(sentence: &Sentence) -> (reading: Option<Reading>)
    ensures
        reading == spec_reading_of(*sentence),
{
    match (sentence.kind, sentence.latitude, sentence.longitude) {
        (SentenceKind::Fix, Some(latitude), Some(longitude)) => Some(
            Reading { latitude, longitude, speed: sentence.speed },
        ),
        _ => None,
    }
}

/// Space, tab, line feed, vertical tab, form feed or carriage return.
pub open spec fn is_space(byte: u8) -> bool {
    byte == 32 || (9 <= byte && byte <= 13)
}

/// Whether a line holds nothing but white space.
pub open spec fn spec_is_blank(line: Seq<u8>) -> bool {
    forall|i: int| 0 <= i < line.len() ==> is_space(#[trigger] line[i])
}

pub fn is_blank(line: &[u8]) -> (blank: bool)
    ensures
        blank == spec_is_blank(line@),
{
    let mut i: usize = 0;
    while i < line.len()
        invariant
            i <= line.len(),
            forall|k: int| 0 <= k < i ==> is_space(#[trigger] line@[k]),
        decreases line.len() - i,
    {
        let byte = line[i];
        if !(byte == 32 || (9 <= byte && byte <= 13)) {
            return false;
        }
        i = i + 1;
    }
    true
}

/// The reading that a line holds: none if the line is blank or is not
/// UTF-8, else what the parser's sentence gives.
pub open spec fn spec_fix_of_line(line: Seq<u8>) -> Option<Reading> {
    if spec_is_blank(line) || !valid_utf8(line) {
        None
    } else {
        spec_reading_of(nmea_sentence(decode_utf8(line)))
    }
}

pub fn fix_of_line(line: &[u8]) -> (fix: Option<Reading>)
    ensures
        fix == spec_fix_of_line(line@),
{
    if is_blank(line) {
        return None;
    }
    match utf8_text(line) {
        Some(text) => {
            proof {
                encode_utf8_decode_utf8(text@);
            }
            let sentence = parse_sentence(text);
            reading_of(&sentence)
        },
        None => None,
    }
}

/// Whether a carriage return and a line feed stand at `i` and `i + 1`.
pub open spec fn is_crlf_at(s: Seq<u8>, i: int) -> bool {
    0 <= i && i + 1 < s.len() && s[i] == 13 && s[i + 1] == 10
}

/// Where the first line end at or after `from` begins; the length of `s` if
/// there is none.
pub open spec fn first_crlf(s: Seq<u8>, from: int) -> int
    decreases s.len() - from,
{
    if from < 0 || from + 1 >= s.len() {
        s.len() as int
    } else if is_crlf_at(s, from) {
        from
    } else {
        first_crlf(s, from + 1)
    }
}

/// The pieces into which the line ends cut `s` from `start` on, in order.
/// What follows the last line end is a piece too, empty or not.
pub open spec fn lines_from(s: Seq<u8>, start: int) -> Seq<Seq<u8>>
    decreases s.len() - start,
{
    if start < 0 || start > s.len() {
        Seq::empty()
    } else {
        let end = first_crlf(s, start);
        if end < start || end + 2 > s.len() {
            seq![s.subrange(start, s.len() as int)]
        } else {
            seq![s.subrange(start, end)] + lines_from(s, end + 2)
        }
    }
}

/// The reading of the last of `lines` that holds one; `earlier` if none does.
pub open spec fn latest_fix(earlier: Option<Reading>, lines: Seq<Seq<u8>>) -> Option<Reading>
    decreases lines.len(),
{
    if lines.len() == 0 {
        earlier
    } else {
        let fix = match spec_fix_of_line(lines[0]) {
            Some(reading) => Some(reading),
            None => earlier,
        };
        latest_fix(fix, lines.drop_first())
    }
}

/// How much of the first `upto` bytes of `s` is complete: everything up to
/// and with the last line end among them, which is nothing if there is none.
pub open spec fn complete_len(s: Seq<u8>, upto: int) -> int
    decreases upto,
{
    if upto < 2 || upto > s.len() {
        0
    } else if is_crlf_at(s, upto - 2) {
        upto
    } else {
        complete_len(s, upto - 1)
    }
}

/// What the bytes gathered so far come to: the latest fix among the lines
/// that are complete, and the rest behind the last line end.
pub open spec fn framed(all: Seq<u8>) -> (Option<Reading>, Seq<u8>) {
    let end = complete_len(all, all.len() as int);
    (latest_fix(None, lines_from(all.subrange(0, end), 0)), all.subrange(end, all.len() as int))
}

/// What one read makes of the buffer: the complete lines are looked through
/// and leave, the rest stays, unless it is over the cap, and an empty read
/// changes nothing.
pub open spec fn spec_read(buffer: Seq<u8>, chunk: Seq<u8>) -> (Option<Reading>, Seq<u8>) {
    let (fix, rest) = framed(buffer + chunk);
    if chunk.len() == 0 {
        (None, buffer)
    } else if rest.len() > BUFFER_CAP {
        (fix, Seq::empty())
    } else {
        (fix, rest)
    }
}

/// Finds the end of the last complete line.
fn find_complete(bytes: &[u8]) -> (end: usize)
    ensures
        end == complete_len(bytes@, bytes@.len() as int),
        end <= bytes@.len(),
{
    let mut upto: usize = bytes.len();
    while upto >= 2
        invariant
            upto <= bytes.len(),
            complete_len(bytes@, bytes@.len() as int) == complete_len(bytes@, upto as int),
        decreases upto,
    {
        if bytes[upto - 2] == 13 && bytes[upto - 1] == 10 {
            return upto;
        }
        upto = upto - 1;
    }
    0
}

/// Looks through the lines of a complete part for the latest fix.
fn scan_lines(complete: &[u8]) -> (fix: Option<Reading>)
    ensures
        fix == latest_fix(None, lines_from(complete@, 0)),
{
    let ghost s = complete@;
    let n = complete.len();
    let mut fix: Option<Reading> = None;
    let mut start: usize = 0;
    let mut pos: usize = 0;
    while pos < n && pos + 1 < n
        invariant
            s == complete@,
            n == s.len(),
            start <= pos <= n,
            first_crlf(s, start as int) == first_crlf(s, pos as int),
            latest_fix(None, lines_from(s, 0)) == latest_fix(fix, lines_from(s, start as int)),
        decreases n - pos,
    {
        if complete[pos] == 13 && complete[pos + 1] == 10 {
            let line = slice_subrange(complete, start, pos);
            let found = fix_of_line(line);
            proof {
                let pieces = lines_from(s, start as int);
                let tail = lines_from(s, pos as int + 2);
                assert(pieces.drop_first() =~= tail);
            }
            if found.is_some() {
                fix = found;
            }
            start = pos + 2;
            pos = pos + 2;
        } else {
            pos = pos + 1;
        }
    }
    let line = slice_subrange(complete, start, n);
    let found = fix_of_line(line);
    proof {
        let pieces = lines_from(s, start as int);
        assert(pieces.drop_first() =~= Seq::<Seq<u8>>::empty());
        let last = if found is Some { found } else { fix };
        assert(latest_fix(last, Seq::<Seq<u8>>::empty()) == last);
    }
    if found.is_some() {
        fix = found;
    }
    fix
}

/// The position sensor's line buffer: bytes read from the receiver that
/// have not made a complete line yet.
#[derive(Debug)]
pub struct Sensor {
    pub buffer: Vec<u8>,
}

impl Sensor {
    /// The buffer is never kept over its cap.
    pub open spec fn wf(&self) -> bool {
        self.buffer@.len() <= BUFFER_CAP
    }

    pub fn new() -> (sensor: Sensor)
        ensures
            sensor.wf(),
            sensor.buffer@ == Seq::<u8>::empty(),
    {
        Sensor { buffer: Vec::new() }
    }

    /// Takes in what one read from the receiver brought. The lines that are
    /// complete by now are parsed and leave the buffer; the latest of their
    /// fixes comes back.
    pub fn read(&mut self, chunk: &[u8]) -> (fix: Option<Reading>)
        requires
            old(self).wf(),
            chunk@.len() + BUFFER_CAP <= usize::MAX,
        ensures
            final(self).wf(),
            fix == spec_read(old(self).buffer@, chunk@).0,
            final(self).buffer@ == spec_read(old(self).buffer@, chunk@).1,
    {
        if chunk.len() == 0 {
            return None;
        }
        append(&mut self.buffer, chunk);
        let end = find_complete(self.buffer.as_slice());
        let fix = scan_lines(slice_subrange(self.buffer.as_slice(), 0, end));
        let rest = self.buffer.split_off(end);
        self.buffer = rest;
        if self.buffer.len() > BUFFER_CAP {
            self.buffer.clear();
        }
        fix
    }

    /// One turn of the sensor's loop. While the device is off the bytes are
    /// not looked at. A fix overwrites whatever the slot held, and
    /// `PositionDataAvailable` is to be emitted for it.
    pub fn poll(&mut self, gate: State, chunk: &[u8], slot: &mut Option<Reading>) -> (trigger:
        Option<Trigger>)
        requires
            old(self).wf(),
            chunk@.len() + BUFFER_CAP <= usize::MAX,
        ensures
            final(self).wf(),
            gate == State::Off ==> trigger is None && final(self).buffer@ == old(self).buffer@
                && *final(slot) == *old(slot),
            gate == State::On ==> {
                let (fix, rest) = spec_read(old(self).buffer@, chunk@);
                &&& final(self).buffer@ == rest
                &&& fix is Some ==> *final(slot) == fix && trigger == Some(
                    Trigger::PositionDataAvailable,
                )
                &&& fix is None ==> *final(slot) == *old(slot) && trigger is None
            },
    {
        match gate {
            State::Off => None,
            State::On => match self.read(chunk) {
                Some(reading) => {
                    *slot = Some(reading);
                    Some(Trigger::PositionDataAvailable)
                },
                None => None,
            },
        }
    }
}

/// What stays in the buffer after a read holds no line end: every complete
/// line has left it.
pub proof fn lemma_rest_has_no_line_end(buffer: Seq<u8>, chunk: Seq<u8>)
    requires
        chunk.len() > 0,
    ensures
        forall|i: int| !is_crlf_at(spec_read(buffer, chunk).1, i),
        spec_read(buffer, chunk).1.len() <= BUFFER_CAP,
{
    let all = buffer + chunk;
    let end = complete_len(all, all.len() as int);
    lemma_complete_len(all, all.len() as int);
    let rest = all.subrange(end, all.len() as int);
    assert forall|i: int| !is_crlf_at(rest, i) by {
        if is_crlf_at(rest, i) {
            assert(is_crlf_at(all, end + i));
        }
    }
}

/// The complete part ends with a line end, and no line end begins after it.
pub proof fn lemma_complete_len(s: Seq<u8>, upto: int)
    requires
        0 <= upto <= s.len(),
    ensures
        0 <= complete_len(s, upto) <= upto,
        complete_len(s, upto) > 0 ==> is_crlf_at(s, complete_len(s, upto) - 2),
        forall|i: int| complete_len(s, upto) - 1 <= i && i + 2 <= upto ==> !is_crlf_at(s, i),
    decreases upto,
{
    if upto >= 2 && !is_crlf_at(s, upto - 2) {
        lemma_complete_len(s, upto - 1);
    }
}

/// `first_crlf` is what its name says: a line end begins where it points,
/// unless it points behind the bytes, and none begins between `from` and there.
pub proof fn lemma_first_crlf(s: Seq<u8>, from: int)
    requires
        0 <= from <= s.len(),
    ensures
        from <= first_crlf(s, from) <= s.len(),
        first_crlf(s, from) < s.len() ==> is_crlf_at(s, first_crlf(s, from)),
        forall|i: int| from <= i < first_crlf(s, from) ==> !is_crlf_at(s, i),
    decreases s.len() - from,
{
    if from + 1 < s.len() && !is_crlf_at(s, from) {
        lemma_first_crlf(s, from + 1);
    }
}

/// Lines without a fix leave the earlier one standing.
pub proof fn lemma_latest_fix_without_fix(earlier: Option<Reading>, lines: Seq<Seq<u8>>)
    requires
        forall|i: int| 0 <= i < lines.len() ==> spec_fix_of_line(#[trigger] lines[i]) is None,
    ensures
        latest_fix(earlier, lines) == earlier,
    decreases lines.len(),
{
    if lines.len() > 0 {
        let rest = lines.drop_first();
        assert forall|i: int| 0 <= i < rest.len() implies spec_fix_of_line(
            #[trigger] rest[i],
        ) is None by {
            assert(rest[i] == lines[i + 1]);
        }
        lemma_latest_fix_without_fix(earlier, rest);
    }
}

/// The latest fix is the one of the last line that holds any, whatever
/// came before it.
pub proof fn lemma_latest_fix_is_last(earlier: Option<Reading>, lines: Seq<Seq<u8>>, last: int)
    requires
        0 <= last < lines.len(),
        spec_fix_of_line(lines[last]) is Some,
        forall|j: int| last < j < lines.len() ==> spec_fix_of_line(#[trigger] lines[j]) is None,
    ensures
        latest_fix(earlier, lines) == spec_fix_of_line(lines[last]),
    decreases lines.len(),
{
    let rest = lines.drop_first();
    let first = match spec_fix_of_line(lines[0]) {
        Some(reading) => Some(reading),
        None => earlier,
    };
    assert forall|j: int| last <= j < rest.len() implies spec_fix_of_line(
        #[trigger] rest[j],
    ) is None by {
        assert(rest[j] == lines[j + 1]);
    }
    if last == 0 {
        lemma_latest_fix_without_fix(first, rest);
    } else {
        assert(rest[last - 1] == lines[last]);
        lemma_latest_fix_is_last(first, rest, last - 1);
    }
}

} // verus!
