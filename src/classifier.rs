use vstd::prelude::*;

use crate::text::{
    chars_of, contains_str, count_char, count_of, count_words, lower_of, lowercase, occurs_in,
    word_count,
};

verus! {

/// Score, in hundredths, at or above which a text is spam.
pub const SPAM_THRESHOLD: u32 = 60;

/// Largest score, in hundredths: 1.0.
pub const MAX_SCORE: u32 = 100;

/// A text longer than this many characters (Unicode scalar values) is too long.
pub const MAX_LENGTH: usize = 320;

/// This many exclamation marks or more are too many.
pub const MAX_EXCLAMATIONS: usize = 5;

/// A text of at most this many words is very short.
pub const SHORT_WORDS: usize = 2;

/// The heuristic rules, in the order in which they are evaluated.
#[derive(Clone, Copy, Debug, PartialEq, Eq, Structural)]
pub enum Reason {
    /// The lowercased text holds a link or a spam word.
    SpamMarker,
    /// The text has more than `MAX_LENGTH` characters.
    TooLong,
    /// The text has at least `MAX_EXCLAMATIONS` exclamation marks.
    TooManyExclamations,
    /// The text has at most `SHORT_WORDS` words.
    VeryShort,
}

impl Reason {
    pub open spec fn spec_label(self) -> Seq<char> {
        match self {
            Reason::SpamMarker => "contains spam marker"@,
            Reason::TooLong => "too long"@,
            Reason::TooManyExclamations => "too many exclamation marks"@,
            Reason::VeryShort => "very short message"@,
        }
    }

    /// Position of the rule in evaluation order.
    pub open spec fn rank(self) -> int {
        match self {
            Reason::SpamMarker => 0,
            Reason::TooLong => 1,
            Reason::TooManyExclamations => 2,
            Reason::VeryShort => 3,
        }
    }

    /// What the rule adds to the score, in hundredths.
    pub open spec fn weight(self) -> nat {
        match self {
            Reason::SpamMarker => 55,
            Reason::TooLong => 20,
            Reason::TooManyExclamations => 15,
            Reason::VeryShort => 10,
        }
    }

    /// What the rule adds to the score, in hundredths.
    pub fn points(&self) -> (w: u32)
        ensures
            w == self.weight(),
    {
        match self {
            Reason::SpamMarker => 55,
            Reason::TooLong => 20,
            Reason::TooManyExclamations => 15,
            Reason::VeryShort => 10,
        }
    }

    /// The human-readable label of the rule.
    pub fn label(&self) -> (r: &'static str)
        ensures
            r@ == self.spec_label(),
    {
        match self {
            Reason::SpamMarker => "contains spam marker",
            Reason::TooLong => "too long",
            Reason::TooManyExclamations => "too many exclamation marks",
            Reason::VeryShort => "very short message",
        }
    }
}

/// The outcome of classifying one text.
#[derive(Clone, Debug)]
pub struct ClassificationResult {
    /// Spam likelihood in hundredths, from 0 to `MAX_SCORE`.
    pub score: u32,
    /// Whether `score` reaches `SPAM_THRESHOLD`.
    pub is_spam: bool,
    /// The rules that fired, in evaluation order.
    pub reasons: Vec<Reason>,
}

/// The lowercased text holds one of the spam markers.
pub open spec fn has_spam_marker(lower: Seq<char>) -> bool {
    occurs_in(lower, "http://"@) || occurs_in(lower, "https://"@) || occurs_in(lower, "t.me/"@)
        || occurs_in(lower, "discord.gg"@) || occurs_in(lower, "casino"@) || occurs_in(
        lower,
        "crypto"@,
    )
}

/// Whether rule `r` fires on `text`, whose lowercase form is `lower`.
pub open spec fn fires(r: Reason, text: Seq<char>, lower: Seq<char>) -> bool {
    match r {
        Reason::SpamMarker => has_spam_marker(lower),
        Reason::TooLong => text.len() > MAX_LENGTH,
        Reason::TooManyExclamations => count_of(text, '!') >= MAX_EXCLAMATIONS,
        Reason::VeryShort => word_count(text) <= SHORT_WORDS,
    }
}

/// `seq![r]` if the rule fires, else the empty sequence.
pub open spec fn if_fires(r: Reason, text: Seq<char>, lower: Seq<char>) -> Seq<Reason> {
    if fires(r, text, lower) {
        seq![r]
    } else {
        Seq::empty()
    }
}

/// The rules that fire, in evaluation order.
pub open spec fn reasons_of(text: Seq<char>, lower: Seq<char>) -> Seq<Reason> {
    if_fires(Reason::SpamMarker, text, lower) + if_fires(Reason::TooLong, text, lower) + if_fires(
        Reason::TooManyExclamations,
        text,
        lower,
    ) + if_fires(Reason::VeryShort, text, lower)
}

/// What the rule adds to the score on this text.
pub open spec fn gain(r: Reason, text: Seq<char>, lower: Seq<char>) -> nat {
    if fires(r, text, lower) {
        r.weight()
    } else {
        0
    }
}

/// The sum of the weights of the rules that fire.
pub open spec fn raw_score(text: Seq<char>, lower: Seq<char>) -> nat {
    gain(Reason::SpamMarker, text, lower) + gain(Reason::TooLong, text, lower) + gain(
        Reason::TooManyExclamations,
        text,
        lower,
    ) + gain(Reason::VeryShort, text, lower)
}

/// The raw score, clamped to `MAX_SCORE`.
pub open spec fn score_of(text: Seq<char>, lower: Seq<char>) -> nat {
    if raw_score(text, lower) < MAX_SCORE {
        raw_score(text, lower)
    } else {
        MAX_SCORE as nat
    }
}

/// `r` is the classification of `text`, given its lowercase form `lower`.
pub open spec fn classifies(text: Seq<char>, lower: Seq<char>, r: ClassificationResult) -> bool {
    &&& r.score == score_of(text, lower)
    &&& r.is_spam == (r.score >= SPAM_THRESHOLD)
    &&& r.reasons@ == reasons_of(text, lower)
}

/// `r` is the classification of `text`.
pub open spec fn is_classification_of(text: Seq<char>, r: ClassificationResult) -> bool {
    classifies(text, lower_of(text), r)
}

/// Number of rules that fire on the text.
pub open spec fn fired_count(text: Seq<char>, lower: Seq<char>) -> nat {
    if_fires(Reason::SpamMarker, text, lower).len() + if_fires(Reason::TooLong, text, lower).len()
        + if_fires(Reason::TooManyExclamations, text, lower).len() + if_fires(
        Reason::VeryShort,
        text,
        lower,
    ).len()
}

/// The reasons hold one entry per rule that fired, at most four, in evaluation order,
/// and a rule is among them exactly when it fires.
pub proof fn lemma_reasons_in_rule_order(text: Seq<char>, lower: Seq<char>)
    ensures
        reasons_of(text, lower).len() == fired_count(text, lower),
        reasons_of(text, lower).len() <= 4,
        forall|i: int, j: int|
            0 <= i < j < reasons_of(text, lower).len() ==> (#[trigger] reasons_of(text, lower)[i]).rank()
                < (#[trigger] reasons_of(text, lower)[j]).rank(),
        forall|r: Reason| #[trigger] reasons_of(text, lower).contains(r) <==> fires(r, text, lower),
{
    let a = if_fires(Reason::SpamMarker, text, lower);
    let b = if_fires(Reason::TooLong, text, lower);
    let c = if_fires(Reason::TooManyExclamations, text, lower);
    let d = if_fires(Reason::VeryShort, text, lower);
    let s = reasons_of(text, lower);
    assert(s == a + b + c + d);
    assert forall|i: int, j: int| 0 <= i < j < s.len() implies (#[trigger] s[i]).rank()
        < (#[trigger] s[j]).rank() by {
        // s[k] comes from a, b, c or d, according to k's position
        assert(forall|k: int|
            0 <= k < s.len() ==> (#[trigger] s[k]).rank() == (if k < a.len() {
                0int
            } else if k < a.len() + b.len() {
                1int
            } else if k < a.len() + b.len() + c.len() {
                2int
            } else {
                3int
            }));
    }
    assert forall|r: Reason| #[trigger] s.contains(r) <==> fires(r, text, lower) by {
        if fires(r, text, lower) {
            let k: int = match r {
                Reason::SpamMarker => 0,
                Reason::TooLong => a.len() as int,
                Reason::TooManyExclamations => (a.len() + b.len()) as int,
                Reason::VeryShort => (a.len() + b.len() + c.len()) as int,
            };
            assert(s[k] == r);
        }
        if s.contains(r) {
            let k = choose|k: int| 0 <= k < s.len() && s[k] == r;
            assert(s[k] == r);
        }
    }
}

/// Classification is a function of the text: two results of `classify` on the same
/// text agree in score, decision and reasons.
pub proof fn lemma_classify_deterministic(
    text: Seq<char>,
    a: ClassificationResult,
    b: ClassificationResult,
)
    requires
        is_classification_of(text, a),
        is_classification_of(text, b),
    ensures
        a.score == b.score,
        a.is_spam == b.is_spam,
        a.reasons@ == b.reasons@,
{
}

/// Appends `r` to `reasons` when `cond` holds, and returns its weight then.
fn apply(cond: bool, r: Reason, reasons: &mut Vec<Reason>) -> (w: u32)
    ensures
        final(reasons)@ == old(reasons)@ + if cond {
            seq![r]
        } else {
            Seq::<Reason>::empty()
        },
        w == if cond {
            r.weight()
        } else {
            0
        },
{
    if cond {
        reasons.push(r);
        r.points()
    } else {
        proof {
            assert(reasons@ =~= reasons@ + Seq::<Reason>::empty());
        }
        0
    }
}

/// Classifies `text`, given `lower`, its lowercase form, where the spam markers are sought.
pub fn classify_lowered(text: &str, lower: &str) -> (r: ClassificationResult)
    ensures
        classifies(text@, lower@, r),
        r.score <= MAX_SCORE,
        r.is_spam == (r.score >= SPAM_THRESHOLD),
        r.reasons.len() <= 4,
{
    let marker = contains_str(lower, "http://") || contains_str(lower, "https://")
        || contains_str(lower, "t.me/") || contains_str(lower, "discord.gg") || contains_str(
        lower,
        "casino",
    ) || contains_str(lower, "crypto");
    let chars = chars_of(text);
    let long = chars.len() > MAX_LENGTH;
    let loud = count_char(&chars, '!') >= MAX_EXCLAMATIONS;
    let short = count_words(&chars) <= SHORT_WORDS;

    let mut reasons: Vec<Reason> = Vec::new();
    let mut score: u32 = 0;
    score = score + apply(marker, Reason::SpamMarker, &mut reasons);
    score = score + apply(long, Reason::TooLong, &mut reasons);
    score = score + apply(loud, Reason::TooManyExclamations, &mut reasons);
    score = score + apply(short, Reason::VeryShort, &mut reasons);
    if score > MAX_SCORE {
        score = MAX_SCORE;
    }
    proof {
        assert(reasons@ =~= reasons_of(text@, lower@));
    }
    let is_spam = score >= SPAM_THRESHOLD;
    ClassificationResult { score, is_spam, reasons }
}

/// Scores `text` against the spam rules.
pub fn classify(text: &str) -> (r: ClassificationResult)
    ensures
        is_classification_of(text@, r),
        r.score <= MAX_SCORE,
        r.is_spam == (r.score >= SPAM_THRESHOLD),
        r.reasons.len() <= 4,
{
    let lower = lowercase(text);
    classify_lowered(text, lower.as_str())
}

} // verus!
