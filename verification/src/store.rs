//! The backing store as the views see it.
//!
//! The store itself is reached by whoever holds the connection. What the
//! views work on is a [`Store`]: the requests that were sent during the
//! handling of one event, each with the reply that came back. A view
//! that needs a reply that is not there fails with
//! [`LoreGuiError::Unanswered`], naming the request, and changes nothing;
//! the caller sends the request, records the reply and hands the same
//! event in again. Once the event is handled, the caller clears the
//! record, so that no reply outlives the event it was given for.

use vstd::prelude::*;
use crate::errors::{outcome, rows, Failure, LoreGuiError};
use crate::types::{
    clone_optional_text, optional_text, optional_text_eq, text_eq, Day, Descriptor,
    EntityRelationship, Label, Role, Timestamp, Year,
};

verus! {

/// A label to match, exactly or as a part of the stored label.
#[derive(Debug, PartialEq, Eq)]
pub struct LabelMatch {
    pub label: Label,
    pub exact: bool,
}

/// A question to the store.
#[derive(Debug, PartialEq, Eq)]
pub enum StoreQuery {
    /// The labels of all entities, or of those whose label contains the text.
    Labels { name_contains: Option<String> },
    /// The descriptors of an entity, all or those that contain the text.
    Descriptors { label: Label, name_contains: Option<String> },
    /// The description that an entity has under a descriptor.
    Description { label: Label, descriptor: Descriptor },
    /// The years that have history items: all, or the given one.
    Years { filter: Option<Year> },
    /// The days of a year that have history items: all, or the given one.
    Days { year: Year, day_filter: Option<i32> },
    /// The timestamps of the history items of a year, of any day (`None`)
    /// or of one day, which may be the day "none".
    Timestamps { year: Year, day: Option<Day> },
    /// The content of the history items with this timestamp.
    Content { timestamp: Timestamp },
    /// The relationships whose parent and child match.
    Relationships { parent: Option<LabelMatch>, child: Option<LabelMatch> },
}

/// A change to the store. Each is carried out as a whole or not at all.
#[derive(Debug, PartialEq, Eq)]
pub enum StoreMutation {
    CreateEntity { label: Label },
    RelabelEntity { old_label: Label, new_label: Label },
    DeleteEntity { label: Label },
    CreateDescriptor { label: Label, descriptor: Descriptor },
    RenameDescriptor { label: Label, old_descriptor: Descriptor, new_descriptor: Descriptor },
    DeleteDescriptor { label: Label, descriptor: Descriptor },
    CreateRelationship { parent: Label, child: Label, role: Option<Role> },
    ChangeRole { parent: Label, child: Label, role: Option<Role> },
    /// The store stamps the item with the time of writing.
    WriteHistoryItem { year: Year, day: Day, content: String },
    RedateHistoryItem { timestamp: Timestamp, year: Year, day: Day },
    DeleteHistoryItem { timestamp: Timestamp },
}

/// What is sent to the store.
#[derive(Debug, PartialEq, Eq)]
pub enum StoreRequest {
    Query(StoreQuery),
    Mutation(StoreMutation),
}

/// What the store sent back.
#[derive(Debug, PartialEq, Eq)]
pub enum StoreReply {
    Labels(Vec<Label>),
    Descriptors(Vec<Descriptor>),
    Description(Option<String>),
    Years(Vec<Year>),
    Days(Vec<Day>),
    Timestamps(Vec<Timestamp>),
    /// One text for each history item that was found.
    Contents(Vec<String>),
    Relationships(Vec<EntityRelationship>),
    /// The mutation was carried out.
    Done,
    /// The store refused the request; the text says why.
    Failed(String),
}

/// A request with the reply that it got.
#[derive(Debug)]
pub struct Answer {
    pub request: StoreRequest,
    pub reply: StoreReply,
}

/// The requests sent to the connected store while one event is handled,
/// with their replies, in the order in which they were recorded.
#[derive(Debug)]
pub struct Store {
    answers: Vec<Answer>,
}

/// A label to match, as plain values.
pub struct LabelMatchView {
    pub label: Seq<char>,
    pub exact: bool,
}

/// A question to the store, as plain values.
pub enum QueryView {
    Labels { name_contains: Option<Seq<char>> },
    Descriptors { label: Seq<char>, name_contains: Option<Seq<char>> },
    Description { label: Seq<char>, descriptor: Seq<char> },
    Years { filter: Option<Year> },
    Days { year: Year, day_filter: Option<i32> },
    Timestamps { year: Year, day: Option<Day> },
    Content { timestamp: Timestamp },
    Relationships { parent: Option<LabelMatchView>, child: Option<LabelMatchView> },
}

/// A change to the store, as plain values.
pub enum MutationView {
    CreateEntity { label: Seq<char> },
    RelabelEntity { old_label: Seq<char>, new_label: Seq<char> },
    DeleteEntity { label: Seq<char> },
    CreateDescriptor { label: Seq<char>, descriptor: Seq<char> },
    RenameDescriptor { label: Seq<char>, old_descriptor: Seq<char>, new_descriptor: Seq<char> },
    DeleteDescriptor { label: Seq<char>, descriptor: Seq<char> },
    CreateRelationship { parent: Seq<char>, child: Seq<char>, role: Option<Seq<char>> },
    ChangeRole { parent: Seq<char>, child: Seq<char>, role: Option<Seq<char>> },
    WriteHistoryItem { year: Year, day: Day, content: Seq<char> },
    RedateHistoryItem { timestamp: Timestamp, year: Year, day: Day },
    DeleteHistoryItem { timestamp: Timestamp },
}

/// What is sent to the store, as plain values.
pub enum RequestView {
    Query(QueryView),
    Mutation(MutationView),
}

/// An optional match as plain values.
pub open spec fn optional_match(scope: Option<LabelMatch>) -> Option<LabelMatchView> {
    match scope {
        Some(value) => Some(value@),
        None => None,
    }
}

impl View for LabelMatch {
    type V = LabelMatchView;

    open spec fn view(&self) -> LabelMatchView {
        LabelMatchView { label: self.label@, exact: self.exact }
    }
}

impl View for StoreQuery {
    type V = QueryView;

    open spec fn view(&self) -> QueryView {
        match *self {
            StoreQuery::Labels { name_contains } => QueryView::Labels {
                name_contains: optional_text(name_contains),
            },
            StoreQuery::Descriptors { label, name_contains } => QueryView::Descriptors {
                label: label@,
                name_contains: optional_text(name_contains),
            },
            StoreQuery::Description { label, descriptor } => QueryView::Description {
                label: label@,
                descriptor: descriptor@,
            },
            StoreQuery::Years { filter } => QueryView::Years { filter },
            StoreQuery::Days { year, day_filter } => QueryView::Days { year, day_filter },
            StoreQuery::Timestamps { year, day } => QueryView::Timestamps { year, day },
            StoreQuery::Content { timestamp } => QueryView::Content { timestamp },
            StoreQuery::Relationships { parent, child } => QueryView::Relationships {
                parent: optional_match(parent),
                child: optional_match(child),
            },
        }
    }
}

impl View for StoreMutation {
    type V = MutationView;

    open spec fn view(&self) -> MutationView {
        match *self {
            StoreMutation::CreateEntity { label } => MutationView::CreateEntity { label: label@ },
            StoreMutation::RelabelEntity { old_label, new_label } => MutationView::RelabelEntity {
                old_label: old_label@,
                new_label: new_label@,
            },
            StoreMutation::DeleteEntity { label } => MutationView::DeleteEntity { label: label@ },
            StoreMutation::CreateDescriptor { label, descriptor } => MutationView::CreateDescriptor {
                label: label@,
                descriptor: descriptor@,
            },
            StoreMutation::RenameDescriptor {
                label,
                old_descriptor,
                new_descriptor,
            } => MutationView::RenameDescriptor {
                label: label@,
                old_descriptor: old_descriptor@,
                new_descriptor: new_descriptor@,
            },
            StoreMutation::DeleteDescriptor { label, descriptor } => MutationView::DeleteDescriptor {
                label: label@,
                descriptor: descriptor@,
            },
            StoreMutation::CreateRelationship { parent, child, role } => MutationView::CreateRelationship {
                parent: parent@,
                child: child@,
                role: optional_text(role),
            },
            StoreMutation::ChangeRole { parent, child, role } => MutationView::ChangeRole {
                parent: parent@,
                child: child@,
                role: optional_text(role),
            },
            StoreMutation::WriteHistoryItem { year, day, content } => MutationView::WriteHistoryItem {
                year,
                day,
                content: content@,
            },
            StoreMutation::RedateHistoryItem { timestamp, year, day } => MutationView::RedateHistoryItem {
                timestamp,
                year,
                day,
            },
            StoreMutation::DeleteHistoryItem { timestamp } => MutationView::DeleteHistoryItem {
                timestamp,
            },
        }
    }
}

impl View for StoreRequest {
    type V = RequestView;

    open spec fn view(&self) -> RequestView {
        match *self {
            StoreRequest::Query(query) => RequestView::Query(query@),
            StoreRequest::Mutation(mutation) => RequestView::Mutation(mutation@),
        }
    }
}

impl LabelMatch {
    /// Whether two matches ask for the same thing.
    pub fn same(&self, other: &LabelMatch) -> (same: bool)
        ensures
            same == (self@ == other@),
    {
        text_eq(&self.label, &other.label) && self.exact == other.exact
    }
}

impl Clone for LabelMatch {
    fn clone(&self) -> (copy: Self)
        ensures
            copy == *self,
    {
        LabelMatch { label: self.label.clone(), exact: self.exact }
    }
}

/// Whether two optional matches ask for the same thing.
pub fn optional_match_eq(a: &Option<LabelMatch>, b: &Option<LabelMatch>) -> (same: bool)
    ensures
        same == (optional_match(*a) == optional_match(*b)),
{
    match (a, b) {
        (Some(x), Some(y)) => x.same(y),
        (None, None) => true,
        _ => false,
    }
}

/// A copy of an optional match.
pub fn clone_optional_match(scope: &Option<LabelMatch>) -> (copy: Option<LabelMatch>)
    ensures
        copy == *scope,
{
    match scope {
        Some(value) => Some(value.clone()),
        None => None,
    }
}

impl StoreQuery {
    /// Whether two queries ask the same question: the same kind, with
    /// the same numbers and with texts of the same characters.
    pub fn same(&self, other: &StoreQuery) -> (same: bool)
        ensures
            same == (self@ == other@),
    {
        match (self, other) {
            (
                StoreQuery::Labels { name_contains: a },
                StoreQuery::Labels { name_contains: b },
            ) => optional_text_eq(a, b),
            (
                StoreQuery::Descriptors { label: l1, name_contains: a },
                StoreQuery::Descriptors { label: l2, name_contains: b },
            ) => text_eq(l1, l2) && optional_text_eq(a, b),
            (
                StoreQuery::Description { label: l1, descriptor: d1 },
                StoreQuery::Description { label: l2, descriptor: d2 },
            ) => text_eq(l1, l2) && text_eq(d1, d2),
            (StoreQuery::Years { filter: a }, StoreQuery::Years { filter: b }) => optional_number_eq(
                a,
                b,
            ),
            (
                StoreQuery::Days { year: y1, day_filter: a },
                StoreQuery::Days { year: y2, day_filter: b },
            ) => *y1 == *y2 && optional_number_eq(a, b),
            (
                StoreQuery::Timestamps { year: y1, day: a },
                StoreQuery::Timestamps { year: y2, day: b },
            ) => *y1 == *y2 && optional_day_eq(a, b),
            (StoreQuery::Content { timestamp: a }, StoreQuery::Content { timestamp: b }) => *a
                == *b,
            (
                StoreQuery::Relationships { parent: a, child: c },
                StoreQuery::Relationships { parent: b, child: d },
            ) => optional_match_eq(a, b) && optional_match_eq(c, d),
            _ => false,
        }
    }
}

/// Compares two optional numbers.
pub fn optional_number_eq(a: &Option<i32>, b: &Option<i32>) -> (same: bool)
    ensures
        same == (*a == *b),
{
    match (a, b) {
        (Some(x), Some(y)) => *x == *y,
        (None, None) => true,
        _ => false,
    }
}

/// Compares two optional days.
pub fn optional_day_eq(a: &Option<Day>, b: &Option<Day>) -> (same: bool)
    ensures
        same == (*a == *b),
{
    match (a, b) {
        (Some(x), Some(y)) => optional_number_eq(x, y),
        (None, None) => true,
        _ => false,
    }
}

impl Clone for StoreQuery {
    fn clone(&self) -> (copy: Self)
        ensures
            copy == *self,
    {
        match self {
            StoreQuery::Labels { name_contains } => StoreQuery::Labels {
                name_contains: clone_optional_text(name_contains),
            },
            StoreQuery::Descriptors { label, name_contains } => StoreQuery::Descriptors {
                label: label.clone(),
                name_contains: clone_optional_text(name_contains),
            },
            StoreQuery::Description { label, descriptor } => StoreQuery::Description {
                label: label.clone(),
                descriptor: descriptor.clone(),
            },
            StoreQuery::Years { filter } => StoreQuery::Years { filter: *filter },
            StoreQuery::Days { year, day_filter } => StoreQuery::Days {
                year: *year,
                day_filter: *day_filter,
            },
            StoreQuery::Timestamps { year, day } => StoreQuery::Timestamps {
                year: *year,
                day: *day,
            },
            StoreQuery::Content { timestamp } => StoreQuery::Content { timestamp: *timestamp },
            StoreQuery::Relationships { parent, child } => StoreQuery::Relationships {
                parent: clone_optional_match(parent),
                child: clone_optional_match(child),
            },
        }
    }
}

impl StoreMutation {
    /// Whether two mutations ask for the same change.
    pub fn same(&self, other: &StoreMutation) -> (same: bool)
        ensures
            same == (self@ == other@),
    {
        match (self, other) {
            (StoreMutation::CreateEntity { label: a }, StoreMutation::CreateEntity { label: b }) => text_eq(
                a,
                b,
            ),
            (
                StoreMutation::RelabelEntity { old_label: a1, new_label: a2 },
                StoreMutation::RelabelEntity { old_label: b1, new_label: b2 },
            ) => text_eq(a1, b1) && text_eq(a2, b2),
            (StoreMutation::DeleteEntity { label: a }, StoreMutation::DeleteEntity { label: b }) => text_eq(
                a,
                b,
            ),
            (
                StoreMutation::CreateDescriptor { label: a1, descriptor: a2 },
                StoreMutation::CreateDescriptor { label: b1, descriptor: b2 },
            ) => text_eq(a1, b1) && text_eq(a2, b2),
            (
                StoreMutation::RenameDescriptor { label: a1, old_descriptor: a2, new_descriptor: a3 },
                StoreMutation::RenameDescriptor { label: b1, old_descriptor: b2, new_descriptor: b3 },
            ) => text_eq(a1, b1) && text_eq(a2, b2) && text_eq(a3, b3),
            (
                StoreMutation::DeleteDescriptor { label: a1, descriptor: a2 },
                StoreMutation::DeleteDescriptor { label: b1, descriptor: b2 },
            ) => text_eq(a1, b1) && text_eq(a2, b2),
            (
                StoreMutation::CreateRelationship { parent: a1, child: a2, role: a3 },
                StoreMutation::CreateRelationship { parent: b1, child: b2, role: b3 },
            ) => text_eq(a1, b1) && text_eq(a2, b2) && optional_text_eq(a3, b3),
            (
                StoreMutation::ChangeRole { parent: a1, child: a2, role: a3 },
                StoreMutation::ChangeRole { parent: b1, child: b2, role: b3 },
            ) => text_eq(a1, b1) && text_eq(a2, b2) && optional_text_eq(a3, b3),
            (
                StoreMutation::WriteHistoryItem { year: a1, day: a2, content: a3 },
                StoreMutation::WriteHistoryItem { year: b1, day: b2, content: b3 },
            ) => *a1 == *b1 && optional_number_eq(a2, b2) && text_eq(a3, b3),
            (
                StoreMutation::RedateHistoryItem { timestamp: a1, year: a2, day: a3 },
                StoreMutation::RedateHistoryItem { timestamp: b1, year: b2, day: b3 },
            ) => *a1 == *b1 && *a2 == *b2 && optional_number_eq(a3, b3),
            (
                StoreMutation::DeleteHistoryItem { timestamp: a },
                StoreMutation::DeleteHistoryItem { timestamp: b },
            ) => *a == *b,
            _ => false,
        }
    }
}

impl Clone for StoreMutation {
    fn clone(&self) -> (copy: Self)
        ensures
            copy == *self,
    {
        match self {
            StoreMutation::CreateEntity { label } => StoreMutation::CreateEntity {
                label: label.clone(),
            },
            StoreMutation::RelabelEntity { old_label, new_label } => StoreMutation::RelabelEntity {
                old_label: old_label.clone(),
                new_label: new_label.clone(),
            },
            StoreMutation::DeleteEntity { label } => StoreMutation::DeleteEntity {
                label: label.clone(),
            },
            StoreMutation::CreateDescriptor { label, descriptor } => StoreMutation::CreateDescriptor {
                label: label.clone(),
                descriptor: descriptor.clone(),
            },
            StoreMutation::RenameDescriptor {
                label,
                old_descriptor,
                new_descriptor,
            } => StoreMutation::RenameDescriptor {
                label: label.clone(),
                old_descriptor: old_descriptor.clone(),
                new_descriptor: new_descriptor.clone(),
            },
            StoreMutation::DeleteDescriptor { label, descriptor } => StoreMutation::DeleteDescriptor {
                label: label.clone(),
                descriptor: descriptor.clone(),
            },
            StoreMutation::CreateRelationship { parent, child, role } => StoreMutation::CreateRelationship {
                parent: parent.clone(),
                child: child.clone(),
                role: clone_optional_text(role),
            },
            StoreMutation::ChangeRole { parent, child, role } => StoreMutation::ChangeRole {
                parent: parent.clone(),
                child: child.clone(),
                role: clone_optional_text(role),
            },
            StoreMutation::WriteHistoryItem { year, day, content } => StoreMutation::WriteHistoryItem {
                year: *year,
                day: *day,
                content: content.clone(),
            },
            StoreMutation::RedateHistoryItem { timestamp, year, day } => StoreMutation::RedateHistoryItem {
                timestamp: *timestamp,
                year: *year,
                day: *day,
            },
            StoreMutation::DeleteHistoryItem { timestamp } => StoreMutation::DeleteHistoryItem {
                timestamp: *timestamp,
            },
        }
    }
}

impl StoreRequest {
    /// Whether two requests ask for the same thing.
    pub fn same(&self, other: &StoreRequest) -> (same: bool)
        ensures
            same == (self@ == other@),
    {
        match (self, other) {
            (StoreRequest::Query(a), StoreRequest::Query(b)) => a.same(b),
            (StoreRequest::Mutation(a), StoreRequest::Mutation(b)) => a.same(b),
            _ => false,
        }
    }
}

impl Clone for StoreRequest {
    fn clone(&self) -> (copy: Self)
        ensures
            copy == *self,
    {
        match self {
            StoreRequest::Query(query) => StoreRequest::Query(query.clone()),
            StoreRequest::Mutation(mutation) => StoreRequest::Mutation(mutation.clone()),
        }
    }
}

/// The reply that was recorded last for a request that asks the same as
/// `request`, if there is one.
pub open spec fn latest_reply(answers: Seq<Answer>, request: RequestView) -> Option<StoreReply>
    decreases answers.len(),
{
    if answers.len() == 0 {
        None
    } else if answers.last().request@ == request {
        Some(answers.last().reply)
    } else {
        latest_reply(answers.drop_last(), request)
    }
}

/// A reply that is recorded is the reply to its request from then on,
/// and the replies to all other requests stay what they were.
pub proof fn recording_answers_one_request(
    answers: Seq<Answer>,
    request: StoreRequest,
    reply: StoreReply,
    other: RequestView,
)
    ensures
        latest_reply(answers.push(Answer { request, reply }), request@) == Some(reply),
        other != request@ ==> latest_reply(answers.push(Answer { request, reply }), other)
            == latest_reply(answers, other),
{
    let recorded = answers.push(Answer { request, reply });
    assert(recorded.drop_last() =~= answers);
}

impl View for Store {
    type V = Seq<Answer>;

    closed spec fn view(&self) -> Seq<Answer> {
        self.answers@
    }
}

impl Store {
    /// The record of a store that has not been asked anything.
    pub fn new() -> (store: Store)
        ensures
            store@.len() == 0,
    {
        Store { answers: Vec::new() }
    }

    /// Records the reply to a request. It takes the place of any earlier
    /// reply to the same request.
    pub fn record(&mut self, request: StoreRequest, reply: StoreReply)
        ensures
            final(self)@ == old(self)@.push(Answer { request, reply }),
    {
        self.answers.push(Answer { request, reply });
    }

    /// Forgets every reply.
    pub fn clear(&mut self)
        ensures
            final(self)@.len() == 0,
    {
        self.answers = Vec::new();
    }

    /// How many replies are on record.
    pub fn len(&self) -> (len: usize)
        ensures
            len == self@.len(),
    {
        self.answers.len()
    }

    /// The reply on record for a request: the one recorded last.
    pub fn reply_to(&self, request: &StoreRequest) -> (reply: Option<&StoreReply>)
        ensures
            reply is Some <==> latest_reply(self@, request@) is Some,
            reply is Some ==> latest_reply(self@, request@) == Some(*reply->0),
    {
        let mut i: usize = self.answers.len();
        assert(self@.take(i as int) =~= self@);
        while i > 0
            invariant
                i <= self.answers.len(),
                latest_reply(self@, request@) == latest_reply(self@.take(i as int), request@),
            decreases i,
        {
            i -= 1;
            assert(self@.take(i + 1).drop_last() =~= self@.take(i as int));
            if self.answers[i].request.same(request) {
                return Some(&self.answers[i].reply);
            }
        }
        None
    }
}

/// What the connected store said to a request: its latest reply, the
/// store's refusal as an error, or the request itself where the store has
/// not been asked.
pub open spec fn answered(store: Store, request: RequestView) -> Result<StoreReply, Failure> {
    match latest_reply(store@, request) {
        Some(StoreReply::Failed(message)) => Err(Failure::StoreError(message@)),
        Some(reply) => Ok(reply),
        None => Err(Failure::Unanswered(request)),
    }
}

/// The labels that the store has for a filter. Without a store there are none.
pub open spec fn labels_of(db: Option<Store>, name_contains: Option<Seq<char>>) -> Result<
    Seq<Label>,
    Failure,
> {
    match db {
        None => Ok(Seq::empty()),
        Some(store) => {
            let request = RequestView::Query(QueryView::Labels { name_contains });
            match answered(store, request) {
                Ok(StoreReply::Labels(rows)) => Ok(rows@),
                Ok(_) => Err(Failure::Unanswered(request)),
                Err(error) => Err(error),
            }
        },
    }
}

/// The descriptors that the store has for an entity and a filter.
pub open spec fn descriptors_of(
    db: Option<Store>,
    label: Seq<char>,
    name_contains: Option<Seq<char>>,
) -> Result<Seq<Descriptor>, Failure> {
    match db {
        None => Ok(Seq::empty()),
        Some(store) => {
            let request = RequestView::Query(QueryView::Descriptors { label, name_contains });
            match answered(store, request) {
                Ok(StoreReply::Descriptors(rows)) => Ok(rows@),
                Ok(_) => Err(Failure::Unanswered(request)),
                Err(error) => Err(error),
            }
        },
    }
}

/// The description that the store has for an entity under a descriptor.
pub open spec fn description_of(db: Option<Store>, label: Seq<char>, descriptor: Seq<char>) -> Result<
    Option<String>,
    Failure,
> {
    match db {
        None => Ok(None),
        Some(store) => {
            let request = RequestView::Query(QueryView::Description { label, descriptor });
            match answered(store, request) {
                Ok(StoreReply::Description(text)) => Ok(text),
                Ok(_) => Err(Failure::Unanswered(request)),
                Err(error) => Err(error),
            }
        },
    }
}

/// The years that the store has for a filter.
pub open spec fn years_of(db: Option<Store>, filter: Option<Year>) -> Result<
    Seq<Year>,
    Failure,
> {
    match db {
        None => Ok(Seq::empty()),
        Some(store) => {
            let request = RequestView::Query(QueryView::Years { filter });
            match answered(store, request) {
                Ok(StoreReply::Years(rows)) => Ok(rows@),
                Ok(_) => Err(Failure::Unanswered(request)),
                Err(error) => Err(error),
            }
        },
    }
}

/// The days that the store has for a year and a filter.
pub open spec fn days_of(db: Option<Store>, year: Year, filter: Option<i32>) -> Result<
    Seq<Day>,
    Failure,
> {
    match db {
        None => Ok(Seq::empty()),
        Some(store) => {
            let request = RequestView::Query(QueryView::Days { year, day_filter: filter });
            match answered(store, request) {
                Ok(StoreReply::Days(rows)) => Ok(rows@),
                Ok(_) => Err(Failure::Unanswered(request)),
                Err(error) => Err(error),
            }
        },
    }
}

/// The timestamps that the store has for a year and, where one is given, a day.
pub open spec fn timestamps_of(db: Option<Store>, year: Year, day: Option<Day>) -> Result<
    Seq<Timestamp>,
    Failure,
> {
    match db {
        None => Ok(Seq::empty()),
        Some(store) => {
            let request = RequestView::Query(QueryView::Timestamps { year, day });
            match answered(store, request) {
                Ok(StoreReply::Timestamps(rows)) => Ok(rows@),
                Ok(_) => Err(Failure::Unanswered(request)),
                Err(error) => Err(error),
            }
        },
    }
}

/// The content of the history item with a timestamp: absent where the
/// store has no such item, an error where it has more than one.
pub open spec fn content_of(db: Option<Store>, timestamp: Timestamp) -> Result<
    Option<String>,
    Failure,
> {
    match db {
        None => Ok(None),
        Some(store) => {
            let request = RequestView::Query(QueryView::Content { timestamp });
            match answered(store, request) {
                Ok(StoreReply::Contents(rows)) => if rows@.len() > 1 {
                    Err(Failure::MultipleResults)
                } else if rows@.len() == 1 {
                    Ok(Some(rows@[0]))
                } else {
                    Ok(None)
                },
                Ok(_) => Err(Failure::Unanswered(request)),
                Err(error) => Err(error),
            }
        },
    }
}

/// The relationships that the store has for a parent and a child to match.
pub open spec fn relationships_of(
    db: Option<Store>,
    parent: Option<LabelMatchView>,
    child: Option<LabelMatchView>,
) -> Result<Seq<EntityRelationship>, Failure> {
    match db {
        None => Ok(Seq::empty()),
        Some(store) => {
            let request = RequestView::Query(QueryView::Relationships { parent, child });
            match answered(store, request) {
                Ok(StoreReply::Relationships(rows)) => Ok(rows@),
                Ok(_) => Err(Failure::Unanswered(request)),
                Err(error) => Err(error),
            }
        },
    }
}

/// How a mutation ended. Without a store it fails, whatever it asks for.
pub open spec fn written(db: Option<Store>, mutation: MutationView) -> Result<(), Failure> {
    match db {
        None => Err(Failure::NoDatabase),
        Some(store) => {
            let request = RequestView::Mutation(mutation);
            match answered(store, request) {
                Ok(StoreReply::Done) => Ok(()),
                Ok(_) => Err(Failure::Unanswered(request)),
                Err(error) => Err(error),
            }
        },
    }
}

/// Without a store every query has an empty answer, and every mutation
/// fails with `NoDatabase`; neither fails in any other way.
pub proof fn without_store_queries_are_empty_and_mutations_fail(
    text: Option<Seq<char>>,
    label: Seq<char>,
    descriptor: Seq<char>,
    number: Option<i32>,
    year: Year,
    day: Option<Day>,
    timestamp: Timestamp,
    parent: Option<LabelMatchView>,
    child: Option<LabelMatchView>,
    mutation: MutationView,
)
    ensures
        labels_of(None, text) == Ok::<Seq<Label>, Failure>(Seq::empty()),
        descriptors_of(None, label, text) == Ok::<Seq<Descriptor>, Failure>(Seq::empty()),
        description_of(None, label, descriptor) == Ok::<Option<String>, Failure>(None),
        years_of(None, number) == Ok::<Seq<Year>, Failure>(Seq::empty()),
        days_of(None, year, number) == Ok::<Seq<Day>, Failure>(Seq::empty()),
        timestamps_of(None, year, day) == Ok::<Seq<Timestamp>, Failure>(Seq::empty()),
        content_of(None, timestamp) == Ok::<Option<String>, Failure>(None),
        relationships_of(None, parent, child) == Ok::<Seq<EntityRelationship>, Failure>(
            Seq::empty(),
        ),
        written(None, mutation) == Err::<(), Failure>(Failure::NoDatabase),
{
}

/// Asks for the labels of the entities, all or those that contain the text.
pub fn query_labels(db: &Option<Store>, name_contains: Option<String>) -> (result: Result<
    Vec<Label>,
    LoreGuiError,
>)
    ensures
        rows(result) == labels_of(*db, optional_text(name_contains)),
{
    match db {
        None => Ok(Vec::new()),
        Some(store) => {
            let request = StoreRequest::Query(StoreQuery::Labels { name_contains });
            match store.reply_to(&request) {
                Some(StoreReply::Labels(rows)) => {
                    let copy = rows.clone();
                    assert(copy@ =~= rows@);
                    Ok(copy)
                },
                Some(StoreReply::Failed(message)) => Err(LoreGuiError::StoreError(message.clone())),
                _ => Err(LoreGuiError::Unanswered(request)),
            }
        },
    }
}

/// Asks for the descriptors of an entity, all or those that contain the text.
pub fn query_descriptors(db: &Option<Store>, label: Label, name_contains: Option<String>) -> (result:
    Result<Vec<Descriptor>, LoreGuiError>)
    ensures
        rows(result) == descriptors_of(*db, label@, optional_text(name_contains)),
{
    match db {
        None => Ok(Vec::new()),
        Some(store) => {
            let request = StoreRequest::Query(StoreQuery::Descriptors { label, name_contains });
            match store.reply_to(&request) {
                Some(StoreReply::Descriptors(rows)) => {
                    let copy = rows.clone();
                    assert(copy@ =~= rows@);
                    Ok(copy)
                },
                Some(StoreReply::Failed(message)) => Err(LoreGuiError::StoreError(message.clone())),
                _ => Err(LoreGuiError::Unanswered(request)),
            }
        },
    }
}

/// Asks for the description of an entity under a descriptor.
pub fn get_description(db: &Option<Store>, label: Label, descriptor: Descriptor) -> (result: Result<
    Option<String>,
    LoreGuiError,
>)
    ensures
        outcome(result) == description_of(*db, label@, descriptor@),
{
    match db {
        None => Ok(None),
        Some(store) => {
            let request = StoreRequest::Query(StoreQuery::Description { label, descriptor });
            match store.reply_to(&request) {
                Some(StoreReply::Description(text)) => Ok(clone_optional_text(text)),
                Some(StoreReply::Failed(message)) => Err(LoreGuiError::StoreError(message.clone())),
                _ => Err(LoreGuiError::Unanswered(request)),
            }
        },
    }
}

/// Asks for the years that have history items, all or the given one.
pub fn query_years(db: &Option<Store>, filter: Option<Year>) -> (result: Result<
    Vec<Year>,
    LoreGuiError,
>)
    ensures
        rows(result) == years_of(*db, filter),
{
    match db {
        None => Ok(Vec::new()),
        Some(store) => {
            let request = StoreRequest::Query(StoreQuery::Years { filter });
            match store.reply_to(&request) {
                Some(StoreReply::Years(rows)) => {
                    let copy = rows.clone();
                    assert(copy@ =~= rows@);
                    Ok(copy)
                },
                Some(StoreReply::Failed(message)) => Err(LoreGuiError::StoreError(message.clone())),
                _ => Err(LoreGuiError::Unanswered(request)),
            }
        },
    }
}

/// Asks for the days of a year that have history items, all or the given one.
pub fn query_days(db: &Option<Store>, year: Year, filter: Option<i32>) -> (result: Result<
    Vec<Day>,
    LoreGuiError,
>)
    ensures
        rows(result) == days_of(*db, year, filter),
{
    match db {
        None => Ok(Vec::new()),
        Some(store) => {
            let request = StoreRequest::Query(StoreQuery::Days { year, day_filter: filter });
            match store.reply_to(&request) {
                Some(StoreReply::Days(rows)) => {
                    let copy = rows.clone();
                    assert(copy@ =~= rows@);
                    Ok(copy)
                },
                Some(StoreReply::Failed(message)) => Err(LoreGuiError::StoreError(message.clone())),
                _ => Err(LoreGuiError::Unanswered(request)),
            }
        },
    }
}

/// Asks for the timestamps of the history items of a year and, where one
/// is given, of a day.
pub fn query_timestamps(db: &Option<Store>, year: Year, day: Option<Day>) -> (result: Result<
    Vec<Timestamp>,
    LoreGuiError,
>)
    ensures
        rows(result) == timestamps_of(*db, year, day),
{
    match db {
        None => Ok(Vec::new()),
        Some(store) => {
            let request = StoreRequest::Query(StoreQuery::Timestamps { year, day });
            match store.reply_to(&request) {
                Some(StoreReply::Timestamps(rows)) => {
                    let copy = rows.clone();
                    assert(copy@ =~= rows@);
                    Ok(copy)
                },
                Some(StoreReply::Failed(message)) => Err(LoreGuiError::StoreError(message.clone())),
                _ => Err(LoreGuiError::Unanswered(request)),
            }
        },
    }
}

/// Asks for the content of the history item with a timestamp. More than
/// one item with that timestamp is an error; none is picked.
pub fn get_content(db: &Option<Store>, timestamp: Timestamp) -> (result: Result<
    Option<String>,
    LoreGuiError,
>)
    ensures
        outcome(result) == content_of(*db, timestamp),
{
    match db {
        None => Ok(None),
        Some(store) => {
            let request = StoreRequest::Query(StoreQuery::Content { timestamp });
            match store.reply_to(&request) {
                Some(StoreReply::Contents(rows)) => {
                    if rows.len() > 1 {
                        Err(LoreGuiError::MultipleResults)
                    } else if rows.len() == 1 {
                        Ok(Some(rows[0].clone()))
                    } else {
                        Ok(None)
                    }
                },
                Some(StoreReply::Failed(message)) => Err(LoreGuiError::StoreError(message.clone())),
                _ => Err(LoreGuiError::Unanswered(request)),
            }
        },
    }
}

/// Asks for the relationships whose parent and child match.
pub fn query_relationships(
    db: &Option<Store>,
    parent: Option<LabelMatch>,
    child: Option<LabelMatch>,
) -> (result: Result<Vec<EntityRelationship>, LoreGuiError>)
    ensures
        rows(result) == relationships_of(*db, optional_match(parent), optional_match(child)),
{
    match db {
        None => Ok(Vec::new()),
        Some(store) => {
            let request = StoreRequest::Query(StoreQuery::Relationships { parent, child });
            match store.reply_to(&request) {
                Some(StoreReply::Relationships(rows)) => {
                    let copy = rows.clone();
                    assert(copy@ =~= rows@);
                    Ok(copy)
                },
                Some(StoreReply::Failed(message)) => Err(LoreGuiError::StoreError(message.clone())),
                _ => Err(LoreGuiError::Unanswered(request)),
            }
        },
    }
}

/// Asks for a change to the store.
pub fn mutate(db: &Option<Store>, mutation: StoreMutation) -> (result: Result<(), LoreGuiError>)
    ensures
        outcome(result) == written(*db, mutation@),
{
    match db {
        None => Err(LoreGuiError::NoDatabase),
        Some(store) => {
            let request = StoreRequest::Mutation(mutation);
            match store.reply_to(&request) {
                Some(StoreReply::Done) => Ok(()),
                Some(StoreReply::Failed(message)) => Err(LoreGuiError::StoreError(message.clone())),
                _ => Err(LoreGuiError::Unanswered(request)),
            }
        },
    }
}


} // verus!
