//! Structured topic names and topic filters.

use vstd::prelude::*;
use crate::error::MqttError;

verus! {

/// One level of a topic, the text between two `/`.
#[derive(Debug, Clone, PartialEq, Eq, Hash)]
pub enum Level {
    /// An ordinary level name.
    Normal(String),
    /// A first level that starts with `$`.
    System(String),
    /// An empty level.
    Blank,
    /// The single-level wildcard `+`.
    SingleWildcard,
    /// The multi-level wildcard `#`.
    MultiWildcard,
}

/// The mathematical value of a [`Level`].
pub enum LevelView {
    Normal(Seq<char>),
    System(Seq<char>),
    Blank,
    SingleWildcard,
    MultiWildcard,
}

impl View for Level {
    type V = LevelView;

    open spec fn view(&self) -> LevelView {
        match self {
            Level::Normal(s) => LevelView::Normal(s@),
            Level::System(s) => LevelView::System(s@),
            Level::Blank => LevelView::Blank,
            Level::SingleWildcard => LevelView::SingleWildcard,
            Level::MultiWildcard => LevelView::MultiWildcard,
        }
    }
}

/// The text a level is written as.
pub open spec fn level_text(l: LevelView) -> Seq<char> {
    match l {
        LevelView::Normal(s) => s,
        LevelView::System(s) => s,
        LevelView::Blank => Seq::empty(),
        LevelView::SingleWildcard => seq!['+'],
        LevelView::MultiWildcard => seq!['#'],
    }
}

/// The levels joined by `/`.
pub open spec fn topic_text(levels: Seq<LevelView>) -> Seq<char>
    decreases levels.len(),
{
    if levels.len() == 0 {
        Seq::empty()
    } else if levels.len() == 1 {
        level_text(levels[0])
    } else {
        topic_text(levels.drop_last()) + seq!['/'] + level_text(levels.last())
    }
}

/// The views of a run of levels.
pub open spec fn levels_view(levels: Seq<Level>) -> Seq<LevelView> {
    Seq::new(levels.len(), |i: int| levels[i]@)
}

/// What the topic grammar makes of a string: its levels, or nothing where the
/// grammar rejects it.
pub uninterp spec fn parsed_levels(s: Seq<char>) -> Option<Seq<LevelView>>;

/// A topic name or topic filter, as the sequence of its levels.
#[derive(Debug, Clone, PartialEq, Eq, Hash)]
pub struct Topic {
    pub levels: Vec<Level>,
}

pub type TopicFilter = Topic;

pub type TopicFilters = Vec<TopicFilter>;

impl View for Topic {
    type V = Seq<LevelView>;

    open spec fn view(&self) -> Seq<LevelView> {
        levels_view(self.levels@)
    }
}

/// Calls `ntex_mqtt::TopicFilter::from_str` and hands its levels out one for one.
/// The contract claims that the outcome is a function of the text alone, named
/// [`parsed_levels`]: absent exactly where the outside parser reports an error.
#[verifier::external_body]
fn parse_levels(s: &str) -> (r: Option<Vec<Level>>)
    ensures
        r is Some <==> parsed_levels(s@) is Some,
        r is Some ==> levels_view(r->0@) == parsed_levels(s@)->0,
{
    match <ntex_mqtt::TopicFilter as core::str::FromStr>::from_str(s) {
        Ok(t) => Some(
            t.levels().iter().map(|l| match l {
                ntex_mqtt::TopicFilterLevel::Normal(x) => Level::Normal(x.to_string()),
                ntex_mqtt::TopicFilterLevel::System(x) => Level::System(x.to_string()),
                ntex_mqtt::TopicFilterLevel::Blank => Level::Blank,
                ntex_mqtt::TopicFilterLevel::SingleWildcard => Level::SingleWildcard,
                ntex_mqtt::TopicFilterLevel::MultiWildcard => Level::MultiWildcard,
            }).collect(),
        ),
        Err(_) => None,
    }
}

impl Level {
    /// A copy of the level.
    pub fn clone_level(&self) -> (r: Level)
        ensures
            r@ == self@,
    {
        match self {
            Level::Normal(s) => Level::Normal(s.clone()),
            Level::System(s) => Level::System(s.clone()),
            Level::Blank => Level::Blank,
            Level::SingleWildcard => Level::SingleWildcard,
            Level::MultiWildcard => Level::MultiWildcard,
        }
    }

    /// Whether two levels are the same.
    pub fn same(&self, other: &Level) -> (r: bool)
        ensures
            r == (self@ == other@),
    {
        match (self, other) {
            (Level::Normal(a), Level::Normal(b)) => *a == *b,
            (Level::System(a), Level::System(b)) => *a == *b,
            (Level::Blank, Level::Blank) => true,
            (Level::SingleWildcard, Level::SingleWildcard) => true,
            (Level::MultiWildcard, Level::MultiWildcard) => true,
            _ => false,
        }
    }
}

impl Topic {
    /// Parses a topic name or filter. Fails with `MalformedTopic` exactly where
    /// the grammar rejects the text.
    pub fn parse(s: &str) -> (r: Result<Topic, MqttError>)
        ensures
            match r {
                Ok(t) => parsed_levels(s@) == Some(t@),
                Err(e) => parsed_levels(s@) is None && e == MqttError::MalformedTopic,
            },
    {
        match parse_levels(s) {
            Some(levels) => Ok(Topic { levels }),
            None => Err(MqttError::MalformedTopic),
        }
    }

    /// A copy of the topic.
    pub fn clone_topic(&self) -> (r: Topic)
        ensures
            r@ == self@,
    {
        let mut levels: Vec<Level> = Vec::new();
        let mut i: usize = 0;
        while i < self.levels.len()
            invariant
                i <= self.levels.len(),
                levels.len() == i,
                forall|k: int| 0 <= k < i ==> levels[k]@ == self.levels[k]@,
            decreases self.levels.len() - i,
        {
            levels.push(self.levels[i].clone_level());
            i += 1;
        }
        let r = Topic { levels };
        assert(r@ =~= self@);
        r
    }

    /// Whether two topics have the same levels.
    pub fn same(&self, other: &Topic) -> (r: bool)
        ensures
            r == (self@ == other@),
    {
        if self.levels.len() != other.levels.len() {
            assert(self@.len() != other@.len());
            return false;
        }
        let mut i: usize = 0;
        while i < self.levels.len()
            invariant
                i <= self.levels.len(),
                self.levels.len() == other.levels.len(),
                forall|k: int| 0 <= k < i ==> self.levels[k]@ == other.levels[k]@,
            decreases self.levels.len() - i,
        {
            if !self.levels[i].same(&other.levels[i]) {
                assert(self@[i as int] != other@[i as int]);
                return false;
            }
            i += 1;
        }
        assert(self@ =~= other@);
        true
    }

    /// The topic written out: its levels joined by `/`.
    pub fn to_string(&self) -> (r: String)
        ensures
            r@ == topic_text(self@),
    {
        let mut out = String::new();
        let mut i: usize = 0;
        while i < self.levels.len()
            invariant
                i <= self.levels.len(),
                out@ == topic_text(self@.subrange(0, i as int)),
            decreases self.levels.len() - i,
        {
            proof {
                let next = self@.subrange(0, i + 1);
                assert(next.drop_last() =~= self@.subrange(0, i as int));
                assert(next.last() == self@[i as int]);
            }
            if i > 0 {
                out.append("/");
                proof {
                    reveal_strlit("/");
                    assert("/"@ =~= seq!['/']);
                }
            }
            match &self.levels[i] {
                Level::Normal(s) => out.append(s.as_str()),
                Level::System(s) => out.append(s.as_str()),
                Level::Blank => {
                    assert(out@ + Seq::<char>::empty() =~= out@);
                },
                Level::SingleWildcard => {
                    out.append("+");
                    proof {
                        reveal_strlit("+");
                        assert("+"@ =~= seq!['+']);
                    }
                },
                Level::MultiWildcard => {
                    out.append("#");
                    proof {
                        reveal_strlit("#");
                        assert("#"@ =~= seq!['#']);
                    }
                },
            }
            proof {
                if i == 0 {
                    assert(Seq::<char>::empty() + level_text(self@[0]) =~= level_text(self@[0]));
                }
            }
            i += 1;
        }
        assert(self@.subrange(0, i as int) =~= self@);
        out
    }
}

} // verus!
