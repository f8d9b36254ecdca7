use vstd::prelude::*;

use crate::domain::{invalid_email_message, is_valid_email, SubscriberEmail};
use crate::email::{EmailMessage, EmailMessageView};
use crate::error_chain::{context_view, ErrorReport, ErrorReportView};

verus! {

/// The two renderings of a newsletter issue.
pub struct Content {
    pub html: String,
    pub text: String,
}

/// A newsletter issue as the publisher submits it.
pub struct BodyData {
    pub title: String,
    pub content: Content,
}

/// A subscriber who confirmed the subscription.
pub struct ConfirmedSubscriber {
    pub email: SubscriberEmail,
}

/// Why publishing an issue failed.
pub enum PublishError {
    UnexpectedError(ErrorReport),
}

/// The mathematical content of a [`PublishError`].
#[verifier::ext_equal]
pub enum PublishErrorView {
    UnexpectedError(ErrorReportView),
}

impl View for PublishError {
    type V = PublishErrorView;

    open spec fn view(&self) -> PublishErrorView {
        match self {
            PublishError::UnexpectedError(e) => PublishErrorView::UnexpectedError(e@),
        }
    }
}

impl PublishError {
    /// The error with the chain of its causes.
    pub fn report(&self) -> (r: ErrorReport)
        ensures
            self@ == PublishErrorView::UnexpectedError(r@),
    {
        match self {
            PublishError::UnexpectedError(e) => e.duplicate(),
        }
    }
}

/// A stored address as it reads once parsed: the address when it is valid,
/// nothing when it is not.
pub open spec fn parsed_view(r: Result<ConfirmedSubscriber, String>) -> Option<Seq<char>> {
    match r {
        Ok(s) => Some(s.email@),
        Err(_) => None,
    }
}

pub open spec fn parsed_seq_view(s: Seq<Result<ConfirmedSubscriber, String>>) -> Seq<Option<Seq<char>>> {
    s.map_values(|r: Result<ConfirmedSubscriber, String>| parsed_view(r))
}

/// Parses the addresses of the confirmed subscribers one by one: each becomes a
/// subscriber when it is a valid address, and otherwise the message that
/// refuses it.
pub fn parse_confirmed_subscribers(emails: Vec<String>) -> (r: Vec<Result<ConfirmedSubscriber, String>>)
    ensures
        r@.len() == emails@.len(),
        forall|i: int| #![trigger r@[i]] 0 <= i < r@.len() ==> {
            &&& (r@[i] is Ok <==> is_valid_email(emails@[i]@))
            &&& (r@[i] matches Ok(s) ==> s.email@ == emails@[i]@)
            &&& (r@[i] matches Err(msg) ==> msg@ == invalid_email_message(emails@[i]@))
        },
{
    let mut r: Vec<Result<ConfirmedSubscriber, String>> = Vec::new();
    let mut i: usize = 0;
    while i < emails.len()
        invariant
            i <= emails@.len(),
            r@.len() == i,
            forall|k: int| #![trigger r@[k]] 0 <= k < r@.len() ==> {
                &&& (r@[k] is Ok <==> is_valid_email(emails@[k]@))
                &&& (r@[k] matches Ok(s) ==> s.email@ == emails@[k]@)
                &&& (r@[k] matches Err(msg) ==> msg@ == invalid_email_message(emails@[k]@))
            },
        decreases emails@.len() - i,
    {
        let parsed = match SubscriberEmail::parse(emails[i].clone()) {
            Ok(email) => Ok(ConfirmedSubscriber { email }),
            Err(msg) => Err(msg),
        };
        r.push(parsed);
        i = i + 1;
    }
    r
}

/// The valid addresses of a parsed list, in their order.
pub open spec fn valid_addresses(s: Seq<Option<Seq<char>>>) -> Seq<Seq<char>>
    decreases s.len(),
{
    if s.len() == 0 {
        Seq::empty()
    } else {
        match s.last() {
            Some(e) => valid_addresses(s.drop_last()).push(e),
            None => valid_addresses(s.drop_last()),
        }
    }
}

pub open spec fn emails_view(s: Seq<SubscriberEmail>) -> Seq<Seq<char>> {
    s.map_values(|e: SubscriberEmail| e@)
}

/// The addresses to which an issue goes: those of the subscribers whose stored
/// address is valid, in their order; the others are skipped.
pub fn newsletter_recipients(subscribers: &Vec<Result<ConfirmedSubscriber, String>>) -> (r: Vec<SubscriberEmail>)
    ensures
        emails_view(r@) == valid_addresses(parsed_seq_view(subscribers@)),
        emails_view(r@) == parsed_seq_view(subscribers@).filter(|o: Option<Seq<char>>| o is Some).map_values(
            |o: Option<Seq<char>>| o->0,
        ),
{
    proof {
        lemma_valid_addresses_is_filter(parsed_seq_view(subscribers@));
    }
    let mut r: Vec<SubscriberEmail> = Vec::new();
    let mut i: usize = 0;
    while i < subscribers.len()
        invariant
            i <= subscribers@.len(),
            emails_view(r@) == valid_addresses(parsed_seq_view(subscribers@).take(i as int)),
        decreases subscribers@.len() - i,
    {
        let ghost before = r@;
        assert(parsed_seq_view(subscribers@).take(i + 1).drop_last() =~= parsed_seq_view(subscribers@).take(i as int));
        match &subscribers[i] {
            Ok(s) => {
                r.push(s.email.clone());
                assert(emails_view(r@) =~= emails_view(before).push(s.email@));
            },
            Err(_) => {},
        }
        i = i + 1;
    }
    assert(parsed_seq_view(subscribers@).take(i as int) =~= parsed_seq_view(subscribers@));
    r
}

/// The email that carries an issue to one recipient.
pub open spec fn newsletter_email_view(recipient: Seq<char>, title: Seq<char>, html: Seq<char>, text: Seq<char>) -> EmailMessageView {
    EmailMessageView { recipient, subject: title, html_content: html, text_content: text }
}

/// The context in which a failed delivery is reported.
pub open spec fn delivery_failure_context(recipient: Seq<char>) -> Seq<char> {
    "Failed to send newsletter issue to "@ + recipient
}

/// An issue being delivered: its title and renderings, the recipients, and the
/// position of the recipient whose delivery is awaited.
pub struct PublishFlow {
    pub title: String,
    pub html: String,
    pub text: String,
    pub recipients: Vec<SubscriberEmail>,
    pub next: usize,
}

/// The mathematical content of a [`PublishFlow`].
#[verifier::ext_equal]
pub struct PublishFlowView {
    pub title: Seq<char>,
    pub html: Seq<char>,
    pub text: Seq<char>,
    pub recipients: Seq<Seq<char>>,
    pub next: nat,
}

impl View for PublishFlow {
    type V = PublishFlowView;

    open spec fn view(&self) -> PublishFlowView {
        PublishFlowView {
            title: self.title@,
            html: self.html@,
            text: self.text@,
            recipients: emails_view(self.recipients@),
            next: self.next as nat,
        }
    }
}

/// What the service must do next for an issue.
pub enum PublishAction {
    /// Send this email.
    SendEmail(EmailMessage),
    /// Answer the request with this result.
    Finish(Result<(), PublishError>),
}

/// The mathematical content of a [`PublishAction`].
#[verifier::ext_equal]
pub enum PublishActionView {
    SendEmail(EmailMessageView),
    Finish(Result<(), PublishErrorView>),
}

impl View for PublishAction {
    type V = PublishActionView;

    open spec fn view(&self) -> PublishActionView {
        match self {
            PublishAction::SendEmail(m) => PublishActionView::SendEmail(m@),
            PublishAction::Finish(r) => PublishActionView::Finish(
                match r {
                    Ok(()) => Ok(()),
                    Err(e) => Err(e@),
                },
            ),
        }
    }
}

/// The email that the flow sends to the recipient at its position.
pub open spec fn current_email(flow: PublishFlowView) -> EmailMessageView {
    newsletter_email_view(flow.recipients[flow.next as int], flow.title, flow.html, flow.text)
}

/// Where an issue goes next from a position: the send to the recipient there,
/// or the end of the delivery when none is left.
pub open spec fn publish_position(flow: PublishFlowView) -> (Option<PublishFlowView>, PublishActionView) {
    if flow.next < flow.recipients.len() {
        (Some(flow), PublishActionView::SendEmail(current_email(flow)))
    } else {
        (None, PublishActionView::Finish(Ok(())))
    }
}

/// How a delivery moves on once the awaited send has its outcome: a failure
/// ends it with an error that names the recipient; a success moves to the next
/// recipient.
pub open spec fn publish_transition(flow: PublishFlowView, outcome: Result<(), ErrorReportView>) -> (Option<PublishFlowView>, PublishActionView) {
    match outcome {
        Err(e) => (
            None,
            PublishActionView::Finish(
                Err(
                    PublishErrorView::UnexpectedError(
                        context_view(e, delivery_failure_context(flow.recipients[flow.next as int])),
                    ),
                ),
            ),
        ),
        Ok(()) => publish_position(PublishFlowView { next: flow.next + 1, ..flow }),
    }
}

fn position_action(flow: PublishFlow) -> (r: (Option<PublishFlow>, PublishAction))
    requires
        flow.next <= flow.recipients.len(),
    ensures
        (match r.0 {
            Some(f) => Some(f@),
            None => None,
        }, r.1@) == publish_position(flow@),
        r.0 matches Some(f) ==> f.next < f.recipients.len(),
{
    if flow.next < flow.recipients.len() {
        let message = EmailMessage {
            recipient: String::from_str(flow.recipients[flow.next].as_ref()),
            subject: flow.title.clone(),
            html_content: flow.html.clone(),
            text_content: flow.text.clone(),
        };
        (Some(flow), PublishAction::SendEmail(message))
    } else {
        (None, PublishAction::Finish(Ok(())))
    }
}

/// Starts the delivery of an issue from the addresses that the store gave for
/// the confirmed subscribers: a failed read ends it with an error; otherwise
/// the issue goes to the valid addresses in their order, and the delivery ends
/// at once when there is none.
pub fn publish_start(body: BodyData, fetched: Result<Vec<String>, ErrorReport>) -> (r: (Option<PublishFlow>, PublishAction))
    ensures
        fetched matches Err(e) ==> r.0 is None && r.1@ == PublishActionView::Finish(
            Err(PublishErrorView::UnexpectedError(e@)),
        ),
        fetched matches Ok(rows) ==> (match r.0 {
            Some(f) => Some(f@),
            None => None,
        }, r.1@) == publish_position(
            PublishFlowView {
                title: body.title@,
                html: body.content.html@,
                text: body.content.text@,
                recipients: valid_email_rows(rows@),
                next: 0,
            },
        ),
        fetched matches Ok(rows) ==> (r.0 is None <==> valid_rows(rows@).len() == 0),
        fetched matches Ok(rows) && valid_rows(rows@).len() == 0 ==> r.1@ == PublishActionView::Finish(Ok(())),
        fetched matches Ok(rows) ==> (r.0 matches Some(f) ==> {
            &&& emails_view(f.recipients@) == valid_rows(rows@)
            &&& f.next == 0
            &&& r.1@ == PublishActionView::SendEmail(
                newsletter_email_view(valid_rows(rows@)[0], body.title@, body.content.html@, body.content.text@),
            )
        }),
        r.0 matches Some(f) ==> f.next < f.recipients.len(),
{
    match fetched {
        Err(e) => (None, PublishAction::Finish(Err(PublishError::UnexpectedError(e)))),
        Ok(rows) => {
            let ghost rows_view = rows@;
            proof {
                lemma_valid_email_rows_is_filter(rows_view);
            }
            let parsed = parse_confirmed_subscribers(rows);
            let recipients = newsletter_recipients(&parsed);
            proof {
                lemma_valid_addresses_of_parsed(rows_view, parsed@);
            }
            let flow = PublishFlow {
                title: body.title,
                html: body.content.html,
                text: body.content.text,
                recipients,
                next: 0,
            };
            position_action(flow)
        },
    }
}

/// The valid addresses among stored rows, in their order.
pub open spec fn valid_email_rows(rows: Seq<String>) -> Seq<Seq<char>>
    decreases rows.len(),
{
    if rows.len() == 0 {
        Seq::empty()
    } else if is_valid_email(rows.last()@) {
        valid_email_rows(rows.drop_last()).push(rows.last()@)
    } else {
        valid_email_rows(rows.drop_last())
    }
}

proof fn lemma_valid_addresses_of_parsed(rows: Seq<String>, parsed: Seq<Result<ConfirmedSubscriber, String>>)
    requires
        parsed.len() == rows.len(),
        forall|i: int| #![trigger parsed[i]] 0 <= i < parsed.len() ==> {
            &&& (parsed[i] is Ok <==> is_valid_email(rows[i]@))
            &&& (parsed[i] matches Ok(s) ==> s.email@ == rows[i]@)
        },
    ensures
        valid_addresses(parsed_seq_view(parsed)) == valid_email_rows(rows),
    decreases rows.len(),
{
    if rows.len() > 0 {
        let k = rows.len() - 1;
        assert(parsed_seq_view(parsed).drop_last() =~= parsed_seq_view(parsed.drop_last()));
        assert(parsed[k] == parsed.last());
        lemma_valid_addresses_of_parsed(rows.drop_last(), parsed.drop_last());
    } else {
        assert(parsed_seq_view(parsed) =~= Seq::<Option<Seq<char>>>::empty());
    }
}

/// Moves a delivery on once the awaited send has its outcome.
pub fn publish_step(flow: PublishFlow, outcome: Result<(), ErrorReport>) -> (r: (Option<PublishFlow>, PublishAction))
    requires
        flow.next < flow.recipients.len(),
    ensures
        (match r.0 {
            Some(f) => Some(f@),
            None => None,
        }, r.1@) == publish_transition(
            flow@,
            match outcome {
                Ok(()) => Ok(()),
                Err(e) => Err(e@),
            },
        ),
        r.0 matches Some(f) ==> f.next < f.recipients.len(),
        outcome is Ok && flow.next + 1 == flow.recipients.len() ==> r.0 is None && r.1@
            == PublishActionView::Finish(Ok(())),
        outcome is Ok && flow.next + 1 < flow.recipients.len() ==> (r.0 matches Some(f) && f.next == flow.next + 1
            && emails_view(f.recipients@) == emails_view(flow.recipients@) && r.1@ == PublishActionView::SendEmail(
            newsletter_email_view(flow.recipients@[flow.next + 1]@, flow.title@, flow.html@, flow.text@),
        )),
        outcome is Err ==> r.0 is None && r.1 matches PublishAction::Finish(Err(_)),
{
    match outcome {
        Err(e) => {
            let mut context = String::from_str("Failed to send newsletter issue to ");
            context.append(flow.recipients[flow.next].as_ref());
            (None, PublishAction::Finish(Err(PublishError::UnexpectedError(e.context(context)))))
        },
        Ok(()) => {
            let PublishFlow { title, html, text, recipients, next } = flow;
            position_action(PublishFlow { title, html, text, recipients, next: next + 1 })
        },
    }
}

/// The stored rows whose address is valid, in their order.
pub open spec fn valid_rows(rows: Seq<String>) -> Seq<Seq<char>> {
    rows.map_values(|s: String| s@).filter(|e: Seq<char>| is_valid_email(e))
}

/// The recipients drawn from stored rows are exactly the rows whose address is
/// valid, all of them and in their order.
pub proof fn lemma_valid_email_rows_is_filter(rows: Seq<String>)
    ensures
        valid_email_rows(rows) == valid_rows(rows),
    decreases rows.len(),
{
    reveal(Seq::filter);
    let views = rows.map_values(|s: String| s@);
    if rows.len() > 0 {
        lemma_valid_email_rows_is_filter(rows.drop_last());
        assert(views.drop_last() =~= rows.drop_last().map_values(|s: String| s@));
        assert(views.last() == rows.last()@);
    } else {
        assert(views =~= Seq::<Seq<char>>::empty());
    }
}

/// The addresses kept from a parsed list are exactly those that parsed, all of
/// them and in their order.
pub proof fn lemma_valid_addresses_is_filter(s: Seq<Option<Seq<char>>>)
    ensures
        valid_addresses(s) == s.filter(|o: Option<Seq<char>>| o is Some).map_values(|o: Option<Seq<char>>| o->0),
    decreases s.len(),
{
    reveal(Seq::filter);
    let keep = |o: Option<Seq<char>>| o is Some;
    let get = |o: Option<Seq<char>>| o->0;
    if s.len() > 0 {
        lemma_valid_addresses_is_filter(s.drop_last());
        if s.last() is Some {
            assert(s.filter(keep) == s.drop_last().filter(keep).push(s.last()));
            assert(s.filter(keep).map_values(get) =~= s.drop_last().filter(keep).map_values(get).push(s.last()->0));
        } else {
            assert(s.filter(keep) == s.drop_last().filter(keep));
        }
    } else {
        assert(s.filter(keep) =~= Seq::<Option<Seq<char>>>::empty());
        assert(s.filter(keep).map_values(get) =~= Seq::<Seq<char>>::empty());
    }
}

/// Every valid stored row receives the issue and every recipient is a valid
/// row: the recipients hold exactly as many addresses as there are valid rows.
pub proof fn lemma_each_valid_row_is_a_recipient(rows: Seq<String>, i: int)
    requires
        0 <= i < rows.len(),
        is_valid_email(rows[i]@),
    ensures
        valid_email_rows(rows).contains(rows[i]@),
        forall|j: int| 0 <= j < valid_email_rows(rows).len() ==> is_valid_email(#[trigger] valid_email_rows(rows)[j]),
{
    lemma_valid_email_rows_is_filter(rows);
    let views = rows.map_values(|s: String| s@);
    let pred = |e: Seq<char>| is_valid_email(e);
    views.lemma_filter_contains(pred, i);
    assert forall|j: int| 0 <= j < views.filter(pred).len() implies is_valid_email(#[trigger] views.filter(pred)[j]) by {
        views.lemma_filter_pred(pred, j);
    }
}

/// The action a delivery ends with when every send from a position on succeeds.
pub open spec fn final_action_when_all_succeed(flow: PublishFlowView) -> PublishActionView
    decreases flow.recipients.len() - flow.next,
{
    if flow.next < flow.recipients.len() {
        match publish_transition(flow, Ok(())).0 {
            Some(after) => final_action_when_all_succeed(after),
            None => publish_transition(flow, Ok(())).1,
        }
    } else {
        publish_position(flow).1
    }
}

/// When every send succeeds, the delivery ends with success, whatever the
/// position it starts from: past the last recipient the action is
/// `Finish(Ok(()))`, which is answered 200.
pub proof fn lemma_all_successful_sends_finish_ok(flow: PublishFlowView)
    requires
        flow.next <= flow.recipients.len(),
    ensures
        final_action_when_all_succeed(flow) == PublishActionView::Finish(Ok(())),
        flow.next == flow.recipients.len() ==> publish_position(flow) == (
            None::<PublishFlowView>,
            PublishActionView::Finish(Ok(())),
        ),
        publish_status_view(Ok(())) == 200,
    decreases flow.recipients.len() - flow.next,
{
    if flow.next < flow.recipients.len() {
        let after = PublishFlowView { next: flow.next + 1, ..flow };
        lemma_all_successful_sends_finish_ok(after);
    }
}

/// The HTTP status with which a publishing request is answered.
pub open spec fn publish_status_view(result: Result<(), PublishErrorView>) -> u16 {
    match result {
        Ok(()) => 200,
        Err(_) => 500,
    }
}

/// Answers a publishing request: 200 when every delivery went through, 500
/// otherwise.
pub fn publish_response_status(result: &Result<(), PublishError>) -> (status: u16)
    ensures
        status == publish_status_view(
            match result {
                Ok(()) => Ok(()),
                Err(e) => Err(e@),
            },
        ),
{
    match result {
        Ok(()) => 200,
        Err(_) => 500,
    }
}

/// The emails that a delivery sends from a position on when every send
/// succeeds: the flow's own step, followed from each position to the next.
pub open spec fn emails_sent_when_all_succeed(flow: PublishFlowView) -> Seq<EmailMessageView>
    decreases flow.recipients.len() - flow.next,
{
    if flow.next < flow.recipients.len() {
        let sent = match publish_position(flow).1 {
            PublishActionView::SendEmail(m) => seq![m],
            PublishActionView::Finish(_) => Seq::empty(),
        };
        match publish_transition(flow, Ok(())).0 {
            Some(after) => sent + emails_sent_when_all_succeed(after),
            None => sent,
        }
    } else {
        Seq::empty()
    }
}

proof fn lemma_sends_from_position(flow: PublishFlowView)
    requires
        flow.next <= flow.recipients.len(),
    ensures
        emails_sent_when_all_succeed(flow) == flow.recipients.skip(flow.next as int).map_values(
            |r: Seq<char>| newsletter_email_view(r, flow.title, flow.html, flow.text),
        ),
    decreases flow.recipients.len() - flow.next,
{
    let rest = flow.recipients.skip(flow.next as int).map_values(
        |r: Seq<char>| newsletter_email_view(r, flow.title, flow.html, flow.text),
    );
    if flow.next < flow.recipients.len() {
        let next = PublishFlowView { next: flow.next + 1, ..flow };
        lemma_sends_from_position(next);
        assert(rest =~= seq![current_email(flow)] + next.recipients.skip(next.next as int).map_values(
            |r: Seq<char>| newsletter_email_view(r, next.title, next.html, next.text),
        ));
    } else {
        assert(rest =~= Seq::<EmailMessageView>::empty());
    }
}

/// When every send succeeds, an issue goes exactly once to each confirmed
/// subscriber whose stored address is valid, in the order of the stored rows,
/// with the issue's title as subject and its two renderings as content; the
/// request is then answered 200.
pub proof fn lemma_issue_reaches_each_valid_subscriber(rows: Seq<String>, title: Seq<char>, html: Seq<char>, text: Seq<char>)
    ensures
        emails_sent_when_all_succeed(
            PublishFlowView { title, html, text, recipients: valid_email_rows(rows), next: 0 },
        ) == valid_email_rows(rows).map_values(|r: Seq<char>| newsletter_email_view(r, title, html, text)),
        valid_email_rows(rows) == valid_rows(rows),
        publish_status_view(Ok(())) == 200,
{
    lemma_valid_email_rows_is_filter(rows);
    let flow = PublishFlowView { title, html, text, recipients: valid_email_rows(rows), next: 0 };
    lemma_sends_from_position(flow);
    assert(flow.recipients.skip(0) =~= flow.recipients);
}

/// A failed send ends the delivery: no further email is sent, and the request
/// is answered 500 with the failure wrapped in a context naming the recipient.
pub proof fn lemma_failed_send_stops_delivery(flow: PublishFlowView, e: ErrorReportView)
    requires
        flow.next < flow.recipients.len(),
    ensures
        publish_transition(flow, Err(e)).0 is None,
        publish_transition(flow, Err(e)).1 == PublishActionView::Finish(
            Err(PublishErrorView::UnexpectedError(
                context_view(e, delivery_failure_context(flow.recipients[flow.next as int])),
            )),
        ),
        publish_status_view(Err(PublishErrorView::UnexpectedError(
            context_view(e, delivery_failure_context(flow.recipients[flow.next as int])),
        ))) == 500,
{
}

} // verus!
