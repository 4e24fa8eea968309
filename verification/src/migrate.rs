//! The one-time migration of a collection from the earlier layout to the
//! present one.
//!
//! The migration reads every document first and gives up on the first one
//! that cannot be read: nothing is converted unless everything can be. What
//! was converted is written only after the operator has named a collection
//! and answered `y`; any other answer ends the run without a write.

use crate::document::{same_text, Value};
use crate::error::DecodeError;
use crate::legacy::{
    convert_all, converted, lemma_converted_view, migrated, OmniEventOld, OmniEventOldView,
};
use crate::legacy_decode::{decode_event_old, parse_event_old};
use crate::schema::OmniEvent;
use vstd::prelude::*;

verus! {

/// The document that stopped a migration, by its place in the collection,
/// and why it could not be read.
#[derive(Clone, Copy, Debug, PartialEq, Eq)]
pub struct ReadFailure {
    pub index: usize,
    pub error: DecodeError,
}

/// Whether `events` are what the documents say, one for one and in order.
pub open spec fn all_read(documents: Seq<Value>, events: Seq<OmniEventOld>) -> bool {
    &&& events.len() == documents.len()
    &&& forall|i: int|
        0 <= i < documents.len() ==> parse_event_old(#[trigger] documents[i]@) == Ok::<
            OmniEventOldView,
            DecodeError,
        >(events[i]@)
}

/// Whether `events` are the conversions of what the documents say, one for
/// one and in order.
pub open spec fn all_converted(documents: Seq<Value>, events: Seq<OmniEvent>) -> bool {
    &&& events.len() == documents.len()
    &&& forall|i: int|
        0 <= i < documents.len() ==> {
            &&& parse_event_old(#[trigger] documents[i]@) is Ok
            &&& events[i]@ == migrated(parse_event_old(documents[i]@)->Ok_0)
        }
}

/// Whether `failure` tells of the first document that cannot be read: the
/// document at its index fails with its error, and every document before it
/// can be read.
pub open spec fn first_unreadable(documents: Seq<Value>, failure: ReadFailure) -> bool {
    &&& failure.index < documents.len()
    &&& parse_event_old(documents[failure.index as int]@) == Err::<OmniEventOldView, DecodeError>(
        failure.error,
    )
    &&& forall|i: int| 0 <= i < failure.index ==> parse_event_old(#[trigger] documents[i]@) is Ok
}

/// Reads every document as an event of the earlier layout, in order, or
/// reports the first that cannot be read.
pub fn read_all(documents: &Vec<Value>) -> (r: Result<Vec<OmniEventOld>, ReadFailure>)
    ensures
        match r {
            Ok(events) => all_read(documents@, events@),
            Err(failure) => first_unreadable(documents@, failure),
        },
{
    let mut events: Vec<OmniEventOld> = Vec::new();
    let mut index: usize = 0;
    while index < documents.len()
        invariant
            index <= documents.len(),
            all_read(documents@.take(index as int), events@),
        decreases documents.len() - index,
    {
        match decode_event_old(&documents[index]) {
            Ok(event) => {
                events.push(event);
            },
            Err(error) => {
                assert forall|i: int| 0 <= i < index implies parse_event_old(
                    #[trigger] documents@[i]@,
                ) is Ok by {
                    assert(documents@.take(index as int)[i] == documents@[i]);
                }
                return Err(ReadFailure { index, error });
            },
        }
        index += 1;
    }
    assert(documents@.take(index as int) =~= documents@);
    Ok(events)
}

/// Reads every document as an event of the earlier layout and converts it:
/// gives the events of the present layout in the order of the documents, or
/// the first document that cannot be read and nothing else.
pub fn prepare(documents: &Vec<Value>) -> (r: Result<Vec<OmniEvent>, ReadFailure>)
    ensures
        match r {
            Ok(events) => all_converted(documents@, events@),
            Err(failure) => first_unreadable(documents@, failure),
        },
{
    let old = read_all(documents)?;
    let ghost read = old@;
    let events = convert_all(old);
    proof {
        assert forall|i: int| 0 <= i < documents@.len() implies {
            &&& parse_event_old(#[trigger] documents@[i]@) is Ok
            &&& events@[i]@ == migrated(parse_event_old(documents@[i]@)->Ok_0)
        } by {
            assert(events@[i] == converted(read[i]));
            lemma_converted_view(read[i]);
        }
    }
    Ok(events)
}

/// What the operator is asked.
#[derive(Clone, Copy, Debug, PartialEq, Eq)]
pub enum Prompt {
    /// The name of the collection to write to.
    CollectionName,
    /// Whether to write at all.
    Confirmation,
}

impl Prompt {
    /// The words of the question.
    pub fn text(self) -> (words: &'static str)
        ensures
            self is CollectionName ==> words@ == "Enter the new collection name: "@,
            self is Confirmation ==> words@ == "Do you want to make a migration? (y/n): "@,
    {
        match self {
            Prompt::CollectionName => "Enter the new collection name: ",
            Prompt::Confirmation => "Do you want to make a migration? (y/n): ",
        }
    }
}

/// Where a migration stands between the conversion and the write.
#[derive(Debug, PartialEq, Eq)]
pub enum Migration {
    /// The collection has not been named yet.
    AwaitingName { events: Vec<OmniEvent> },
    /// The collection has been named, in the line kept here as it was
    /// entered, and the write has not been confirmed yet.
    AwaitingConfirmation { name: String, events: Vec<OmniEvent> },
    /// The migration is over, with or without a write.
    Finished,
}

/// What the caller of a migration has to do next.
#[derive(Debug, PartialEq, Eq)]
pub enum Step {
    /// Ask the operator and hand the line entered to [`answer`].
    Ask(Prompt),
    /// Write all the events to the collection, in one batch.
    Insert { collection: String, events: Vec<OmniEvent> },
    /// Write nothing: the operator did not confirm.
    Abort,
    /// Nothing: the migration was over already.
    Nothing,
}

impl Step {
    /// The line to show the operator with this step, if there is one.
    pub fn notice(&self) -> (notice: Option<&'static str>)
        ensures
            *self is Insert ==> (notice matches Some(words) && words@ == "Migrating..."@),
            *self is Abort ==> (notice matches Some(words) && words@ == "Migration aborted."@),
            *self is Ask || *self is Nothing ==> notice is None,
    {
        match self {
            Step::Insert { .. } => Some("Migrating..."),
            Step::Abort => Some("Migration aborted."),
            _ => None,
        }
    }
}

/// What is left of a line of input when the white space before and after it
/// is taken away, as `str::trim` does it.
pub uninterp spec fn trimmed(line: Seq<char>) -> Seq<char>;

/// `str::trim`: the part of `line` between its leading and its trailing
/// white space. The contract only gives the result its name.
#[verifier::external_body]
fn trim(line: &str) -> (rest: &str)
    ensures
        rest@ == trimmed(line@),
{
    line.trim()
}

/// Whether an answer, with the white space around it taken away, confirms
/// the write: it does if it is the single letter `y`.
pub open spec fn confirms(answer: Seq<char>) -> bool {
    answer == seq!['y']
}

/// Decides on the write from the name and the answer as they are without
/// the white space around them: an answer that confirms gives the write of
/// all the events, in their order, to the collection named; any other answer
/// gives no write.
pub fn decide(name: &str, answer: &str, events: Vec<OmniEvent>) -> (step: Step)
    ensures
        match step {
            Step::Insert { collection, events: written } => {
                &&& confirms(answer@)
                &&& collection@ == name@
                &&& written == events
            },
            Step::Abort => !confirms(answer@),
            _ => false,
        },
{
    proof {
        reveal_strlit("y");
        assert("y"@ =~= seq!['y']);
    }
    if same_text(answer, "y") {
        Step::Insert { collection: name.to_owned(), events }
    } else {
        Step::Abort
    }
}

/// Starts the exchange with the operator that comes before the write: the
/// name of the collection is asked for first.
pub fn begin(events: Vec<OmniEvent>) -> (r: (Migration, Step))
    ensures
        r.0 == (Migration::AwaitingName { events }),
        r.1 == Step::Ask(Prompt::CollectionName),
{
    (Migration::AwaitingName { events }, Step::Ask(Prompt::CollectionName))
}

/// Takes the line that the operator entered. The first line names the
/// collection and the confirmation is asked for; the second line decides:
/// the write goes ahead exactly if the line, without the white space around
/// it, is `y`, to the collection named by the first line without the white
/// space around it, and with all the events in their order. After that the
/// migration is over and no line starts another write.
pub fn answer(state: Migration, line: &str) -> (r: (Migration, Step))
    ensures
        match state {
            Migration::AwaitingName { events } => {
                &&& r.0 matches Migration::AwaitingConfirmation { name, events: kept }
                &&& name@ == line@
                &&& kept == events
                &&& r.1 == Step::Ask(Prompt::Confirmation)
            },
            Migration::AwaitingConfirmation { name, events } => {
                &&& r.0 is Finished
                &&& if confirms(trimmed(line@)) {
                    &&& r.1 matches Step::Insert { collection, events: written }
                    &&& collection@ == trimmed(name@)
                    &&& written == events
                } else {
                    r.1 is Abort
                }
            },
            Migration::Finished => r.0 is Finished && r.1 is Nothing,
        },
{
    match state {
        Migration::AwaitingName { events } => (
            Migration::AwaitingConfirmation { name: line.to_owned(), events },
            Step::Ask(Prompt::Confirmation),
        ),
        Migration::AwaitingConfirmation { name, events } => (
            Migration::Finished,
            decide(trim(name.as_str()), trim(line), events),
        ),
        Migration::Finished => (Migration::Finished, Step::Nothing),
    }
}

} // verus!
