//! Transcription results and the history a session accumulates from them.

use vstd::prelude::*;
use vstd::string::*;

verus! {

/// The character for one decimal digit.
pub open spec fn digit_char(d: nat) -> char {
    if d == 0 {
        '0'
    } else if d == 1 {
        '1'
    } else if d == 2 {
        '2'
    } else if d == 3 {
        '3'
    } else if d == 4 {
        '4'
    } else if d == 5 {
        '5'
    } else if d == 6 {
        '6'
    } else if d == 7 {
        '7'
    } else if d == 8 {
        '8'
    } else {
        '9'
    }
}

/// A number in decimal, without sign or leading zeros.
pub open spec fn decimal_text(n: nat) -> Seq<char>
    decreases n,
{
    if n < 10 {
        seq![digit_char(n)]
    } else {
        decimal_text(n / 10).push(digit_char(n % 10))
    }
}

/// The identifier of the segment with the given sequence id.
pub open spec fn segment_id_text(sequence_id: u64) -> Seq<char> {
    "seg_"@ + decimal_text(sequence_id as nat)
}

fn digit_str(d: u64) -> (r: &'static str)
    requires
        d < 10,
    ensures
        r@ =~= seq![digit_char(d as nat)],
{
    proof {
        reveal_strlit("0");
        reveal_strlit("1");
        reveal_strlit("2");
        reveal_strlit("3");
        reveal_strlit("4");
        reveal_strlit("5");
        reveal_strlit("6");
        reveal_strlit("7");
        reveal_strlit("8");
        reveal_strlit("9");
    }
    if d == 0 {
        "0"
    } else if d == 1 {
        "1"
    } else if d == 2 {
        "2"
    } else if d == 3 {
        "3"
    } else if d == 4 {
        "4"
    } else if d == 5 {
        "5"
    } else if d == 6 {
        "6"
    } else if d == 7 {
        "7"
    } else if d == 8 {
        "8"
    } else {
        "9"
    }
}

/// Writes a number in decimal.
pub fn decimal(n: u64) -> (r: String)
    ensures
        r@ == decimal_text(n as nat),
    decreases n,
{
    if n < 10 {
        String::from_str(digit_str(n))
    } else {
        let head = decimal(n / 10);
        let r = head.concat(digit_str(n % 10));
        assert(r@ =~= decimal_text((n / 10) as nat).push(digit_char((n % 10) as nat)));
        r
    }
}

/// The identifier of the segment with the given sequence id: `seg_` and the
/// id in decimal.
pub fn segment_id(sequence_id: u64) -> (r: String)
    ensures
        r@ == segment_id_text(sequence_id),
{
    let digits = decimal(sequence_id);
    String::from_str("seg_").concat(digits.as_str())
}

/// One transcription result as the worker pool produces it. Times are in
/// milliseconds, the confidence in thousandths.
pub struct TranscriptUpdate {
    pub text: String,
    pub timestamp: String,
    pub sequence_id: u64,
    pub audio_start_time: u64,
    pub audio_end_time: u64,
    pub duration: u64,
    pub confidence: u16,
}

/// One transcription result as the session keeps it.
pub struct TranscriptSegment {
    pub id: String,
    pub text: String,
    pub audio_start_time: u64,
    pub audio_end_time: u64,
    pub duration: u64,
    pub display_time: String,
    pub confidence: u16,
    pub sequence_id: u64,
}

impl TranscriptSegment {
    /// Whether the segment's identifier is the one its sequence id gives.
    pub open spec fn spec_has_own_id(&self) -> bool {
        self.id@ == segment_id_text(self.sequence_id)
    }

    #[verifier::when_used_as_spec(spec_has_own_id)]
    pub fn has_own_id(&self) -> (r: bool)
        ensures
            r == self.spec_has_own_id(),
    {
        self.id == segment_id(self.sequence_id)
    }

    /// Whether this segment is the durable form of the given update.
    pub open spec fn records(&self, update: TranscriptUpdate) -> bool {
        &&& self.id@ == segment_id_text(update.sequence_id)
        &&& self.text == update.text
        &&& self.audio_start_time == update.audio_start_time
        &&& self.audio_end_time == update.audio_end_time
        &&& self.duration == update.duration
        &&& self.display_time == update.timestamp
        &&& self.confidence == update.confidence
        &&& self.sequence_id == update.sequence_id
    }

    /// The durable form of an update; the wall-clock timestamp becomes the
    /// display time.
    pub fn from_update(update: TranscriptUpdate) -> (r: TranscriptSegment)
        ensures
            r.records(update),
    {
        TranscriptSegment {
            id: segment_id(update.sequence_id),
            text: update.text,
            audio_start_time: update.audio_start_time,
            audio_end_time: update.audio_end_time,
            duration: update.duration,
            display_time: update.timestamp,
            confidence: update.confidence,
            sequence_id: update.sequence_id,
        }
    }

    /// A copy of this segment.
    pub fn duplicate(&self) -> (r: TranscriptSegment)
        ensures
            r == *self,
    {
        TranscriptSegment {
            id: self.id.clone(),
            text: self.text.clone(),
            audio_start_time: self.audio_start_time,
            audio_end_time: self.audio_end_time,
            duration: self.duration,
            display_time: self.display_time.clone(),
            confidence: self.confidence,
            sequence_id: self.sequence_id,
        }
    }
}

/// Whether some segment of the sequence has the given sequence id.
pub open spec fn has_sequence_id(segments: Seq<TranscriptSegment>, sequence_id: u64) -> bool {
    exists|i: int| 0 <= i < segments.len() && (#[trigger] segments[i]).sequence_id == sequence_id
}

/// No two segments share a sequence id.
pub open spec fn distinct_sequence_ids(segments: Seq<TranscriptSegment>) -> bool {
    forall|i: int, j: int|
        0 <= i < j < segments.len() ==> (#[trigger] segments[i]).sequence_id != (
        #[trigger] segments[j]).sequence_id
}

/// Every segment is identified by `seg_` and its sequence id.
pub open spec fn identified_by_sequence(segments: Seq<TranscriptSegment>) -> bool {
    forall|i: int| 0 <= i < segments.len() ==> (#[trigger] segments[i]).spec_has_own_id()
}

/// What holds of every history: a sequence id occurs at most once, and
/// every segment is identified by its sequence id.
pub open spec fn history_consistent(segments: Seq<TranscriptSegment>) -> bool {
    distinct_sequence_ids(segments) && identified_by_sequence(segments)
}

/// The history after a segment is offered: appended at the end, unless its
/// sequence id is already held.
pub open spec fn with_segment(
    segments: Seq<TranscriptSegment>,
    segment: TranscriptSegment,
) -> Seq<TranscriptSegment> {
    if has_sequence_id(segments, segment.sequence_id) {
        segments
    } else {
        segments.push(segment)
    }
}

/// The segments of one session, in the order their updates were observed.
pub struct TranscriptHistory {
    segments: Vec<TranscriptSegment>,
}

impl View for TranscriptHistory {
    type V = Seq<TranscriptSegment>;

    closed spec fn view(&self) -> Seq<TranscriptSegment> {
        self.segments@
    }
}

impl TranscriptHistory {
    /// The history's invariant: a sequence id occurs at most once, and every
    /// segment is identified by its sequence id.
    pub open spec fn wf(&self) -> bool {
        history_consistent(self@)
    }

    pub fn new() -> (r: TranscriptHistory)
        ensures
            r.wf(),
            r@ == Seq::<TranscriptSegment>::empty(),
    {
        TranscriptHistory { segments: Vec::new() }
    }

    pub fn len(&self) -> (r: usize)
        ensures
            r == self@.len(),
    {
        self.segments.len()
    }

    /// Whether a segment with this sequence id is held.
    pub fn contains(&self, sequence_id: u64) -> (r: bool)
        ensures
            r == has_sequence_id(self@, sequence_id),
    {
        let mut i: usize = 0;
        while i < self.segments.len()
            invariant
                i <= self.segments.len(),
                forall|k: int| 0 <= k < i ==> (#[trigger] self.segments@[k]).sequence_id != sequence_id,
            decreases self.segments.len() - i,
        {
            if self.segments[i].sequence_id == sequence_id {
                return true;
            }
            i = i + 1;
        }
        false
    }

    /// Appends the segment unless its sequence id is already held; says
    /// whether it was appended. Offering a segment twice changes nothing the
    /// second time.
    pub fn add(&mut self, segment: TranscriptSegment) -> (appended: bool)
        requires
            old(self).wf(),
            segment.spec_has_own_id(),
        ensures
            final(self).wf(),
            final(self)@ == with_segment(old(self)@, segment),
            appended == !has_sequence_id(old(self)@, segment.sequence_id),
            has_sequence_id(final(self)@, segment.sequence_id),
    {
        if self.contains(segment.sequence_id) {
            false
        } else {
            let ghost before = self.segments@;
            self.segments.push(segment);
            assert(self.segments@[before.len() as int].sequence_id == segment.sequence_id);
            true
        }
    }

    /// A copy of the segments, in order.
    pub fn snapshot(&self) -> (r: Vec<TranscriptSegment>)
        ensures
            r@ == self@,
    {
        let mut out: Vec<TranscriptSegment> = Vec::new();
        let mut i: usize = 0;
        while i < self.segments.len()
            invariant
                i <= self.segments.len(),
                out@ == self.segments@.take(i as int),
            decreases self.segments.len() - i,
        {
            out.push(self.segments[i].duplicate());
            assert(self.segments@.take(i as int).push(self.segments@[i as int])
                =~= self.segments@.take(i + 1));
            i = i + 1;
        }
        assert(self.segments@.take(i as int) =~= self.segments@);
        out
    }
}

/// Offering a segment again leaves the history as the first offer left it.
pub proof fn lemma_add_idempotent(segments: Seq<TranscriptSegment>, segment: TranscriptSegment)
    ensures
        with_segment(with_segment(segments, segment), segment) == with_segment(segments, segment),
{
    let once = with_segment(segments, segment);
    if !has_sequence_id(segments, segment.sequence_id) {
        assert(once[segments.len() as int].sequence_id == segment.sequence_id);
    }
}

/// Offering a segment keeps sequence ids distinct and every earlier segment
/// in its place: nothing already held is dropped or reordered.
pub proof fn lemma_add_preserves(segments: Seq<TranscriptSegment>, segment: TranscriptSegment)
    requires
        history_consistent(segments),
        segment.spec_has_own_id(),
    ensures
        history_consistent(with_segment(segments, segment)),
        segments.len() <= with_segment(segments, segment).len(),
        forall|i: int| 0 <= i < segments.len() ==> with_segment(segments, segment)[i] == segments[i],
{
}

} // verus!
