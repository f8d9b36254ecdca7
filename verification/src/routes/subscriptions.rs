use rand::distributions::Alphanumeric;
use rand::rngs::{OsRng, StdRng};
use rand::{Rng, SeedableRng};
use vstd::prelude::*;

use crate::domain::{
    invalid_email_message, invalid_name_message, is_valid_email, is_valid_subscriber_name,
    NewSubscriber, SubscriberEmail, SubscriberName,
};
use crate::email::{EmailMessage, EmailMessageView};
use crate::error_chain::{context_view, ErrorReport, ErrorReportView};
use crate::text::push_char;

verus! {

/// The fields of a subscription form, as the client sent them.
pub struct FormData {
    pub email: String,
    pub name: String,
}

/// Why a form is refused, if it is: the name is checked first, then the address.
pub open spec fn form_error(email: Seq<char>, name: Seq<char>) -> Option<Seq<char>> {
    if !is_valid_subscriber_name(name) {
        Some(invalid_name_message(name))
    } else if !is_valid_email(email) {
        Some(invalid_email_message(email))
    } else {
        None
    }
}

/// The mathematical content of a [`NewSubscriber`].
#[verifier::ext_equal]
pub struct NewSubscriberView {
    pub email: Seq<char>,
    pub name: Seq<char>,
}

impl View for NewSubscriber {
    type V = NewSubscriberView;

    open spec fn view(&self) -> NewSubscriberView {
        NewSubscriberView { email: self.email@, name: self.name@ }
    }
}

impl NewSubscriber {
    /// Validates a subscription form: a subscriber comes out exactly when both
    /// fields are valid, and holds them unchanged; otherwise the message of the
    /// first refused field comes out.
    pub fn try_from(value: FormData) -> (r: Result<NewSubscriber, String>)
        ensures
            r is Ok <==> form_error(value.email@, value.name@) is None,
            r is Ok <==> is_valid_subscriber_name(value.name@) && is_valid_email(value.email@),
            !is_valid_subscriber_name(value.name@) ==> (r matches Err(msg) && msg@ == value.name@
                + " is not a valid subscriber name."@),
            r matches Ok(s) ==> s@ == (NewSubscriberView { email: value.email@, name: value.name@ }),
            r matches Err(msg) ==> Some(msg@) == form_error(value.email@, value.name@),
    {
        let name = SubscriberName::parse(value.name)?;
        let email = SubscriberEmail::parse(value.email)?;
        Ok(NewSubscriber { email, name })
    }
}

/// Why a subscription failed.
pub enum SubscribeError {
    /// The form was refused; the message says why.
    ValidationError(String),
    /// Something went wrong while storing the subscriber or sending the email.
    UnexpectedError(ErrorReport),
}

/// The mathematical content of a [`SubscribeError`].
#[verifier::ext_equal]
pub enum SubscribeErrorView {
    ValidationError(Seq<char>),
    UnexpectedError(ErrorReportView),
}

impl View for SubscribeError {
    type V = SubscribeErrorView;

    open spec fn view(&self) -> SubscribeErrorView {
        match self {
            SubscribeError::ValidationError(s) => SubscribeErrorView::ValidationError(s@),
            SubscribeError::UnexpectedError(e) => SubscribeErrorView::UnexpectedError(e@),
        }
    }
}

/// The report that the error's `Debug` output renders: a validation message has
/// no cause.
pub open spec fn subscribe_error_report(e: SubscribeErrorView) -> ErrorReportView {
    match e {
        SubscribeErrorView::ValidationError(s) => ErrorReportView { message: s, causes: Seq::empty() },
        SubscribeErrorView::UnexpectedError(r) => r,
    }
}

impl SubscribeError {
    /// The error with the chain of its causes.
    pub fn report(&self) -> (r: ErrorReport)
        ensures
            r@ == subscribe_error_report(self@),
    {
        match self {
            SubscribeError::ValidationError(s) => ErrorReport::new(s.clone()),
            SubscribeError::UnexpectedError(e) => e.duplicate(),
        }
    }
}

/// Whether a byte is an ASCII letter or digit.
pub open spec fn is_alphanumeric_byte(b: u8) -> bool {
    (65 <= b <= 90) || (97 <= b <= 122) || (48 <= b <= 57)
}

/// Whether a character is an ASCII letter or digit.
pub open spec fn is_alphanumeric_char(c: char) -> bool {
    ('A' <= c <= 'Z') || ('a' <= c <= 'z') || ('0' <= c <= '9')
}

/// The number of characters of a subscription token.
pub const SUBSCRIPTION_TOKEN_LENGTH: usize = 25;

/// A subscription token is 25 ASCII letters and digits.
pub open spec fn is_subscription_token(s: Seq<char>) -> bool {
    &&& s.len() == SUBSCRIPTION_TOKEN_LENGTH
    &&& forall|i: int| 0 <= i < s.len() ==> is_alphanumeric_char(#[trigger] s[i])
}

/// Declares `rand::rngs::StdRng`, the ChaCha-based generator, as an opaque type.
#[verifier::external_type_specification]
#[verifier::external_body]
pub struct ExStdRng(StdRng);

/// Calls `SeedableRng::from_rng(OsRng)` for a `StdRng`: seeds the generator with
/// bytes from the operating system. It fails, with the message of the error,
/// when the operating system's source cannot provide them; nothing is promised
/// of the generator.
#[verifier::external_body]
fn seed_from_os() -> (r: Result<StdRng, String>) {
    StdRng::from_rng(OsRng).map_err(|e| e.to_string())
}

/// Calls `Rng::sample` with the `Alphanumeric` distribution on a `StdRng`, which
/// returns one byte taken from `A`-`Z`, `a`-`z` and `0`-`9`; which one is left
/// to chance. The generator never reseeds itself, so the call cannot fail.
#[verifier::external_body]
fn sample_alphanumeric(rng: &mut StdRng) -> (b: u8)
    ensures
        is_alphanumeric_byte(b),
{
    rng.sample(Alphanumeric)
}

/// Draws of bytes fit for a subscription token: 25 ASCII letters and digits.
pub open spec fn is_token_samples(samples: Seq<u8>) -> bool {
    &&& samples.len() == SUBSCRIPTION_TOKEN_LENGTH
    &&& forall|i: int| 0 <= i < samples.len() ==> is_alphanumeric_byte(#[trigger] samples[i])
}

/// The text made of the characters of the bytes, in their order.
pub open spec fn samples_text(samples: Seq<u8>) -> Seq<char> {
    samples.map_values(|b: u8| b as char)
}

/// Draws the 25 random letters and digits of a subscription token from a
/// seeded generator; the draws cannot fail.
pub fn draw_token_samples(rng: &mut StdRng) -> (samples: Vec<u8>)
    ensures
        is_token_samples(samples@),
{
    let mut samples: Vec<u8> = Vec::new();
    while samples.len() < SUBSCRIPTION_TOKEN_LENGTH
        invariant
            samples@.len() <= SUBSCRIPTION_TOKEN_LENGTH,
            forall|j: int| 0 <= j < samples@.len() ==> is_alphanumeric_byte(#[trigger] samples@[j]),
        decreases SUBSCRIPTION_TOKEN_LENGTH - samples@.len(),
    {
        let b = sample_alphanumeric(rng);
        samples.push(b);
    }
    samples
}

/// The token written with the drawn bytes, one character per byte, in order.
pub fn token_from_samples(samples: &Vec<u8>) -> (token: String)
    ensures
        token@ == samples_text(samples@),
{
    let mut token = String::new();
    let mut i: usize = 0;
    while i < samples.len()
        invariant
            i <= samples@.len(),
            token@ =~= samples_text(samples@).take(i as int),
        decreases samples@.len() - i,
    {
        push_char(&mut token, samples[i] as char);
        i = i + 1;
    }
    assert(samples_text(samples@).take(i as int) =~= samples_text(samples@));
    token
}

/// Bytes fit for a token write a subscription token.
pub proof fn lemma_token_samples_write_a_token(samples: Seq<u8>)
    requires
        is_token_samples(samples),
    ensures
        is_subscription_token(samples_text(samples)),
{
    assert forall|i: int| 0 <= i < samples_text(samples).len() implies is_alphanumeric_char(
        #[trigger] samples_text(samples)[i],
    ) by {
        let b = samples[i];
        assert(is_alphanumeric_byte(b));
        assert(samples_text(samples)[i] == b as char);
    }
}

/// A subscription token from the outcome of seeding a generator: when the
/// generator was seeded, a token of 25 letters and digits drawn from it,
/// always; when seeding failed, that failure's message, unchanged.
pub fn token_from_seed(seed: Result<StdRng, String>) -> (r: Result<String, String>)
    ensures
        r is Ok <==> seed is Ok,
        seed matches Err(m) ==> (r matches Err(n) && n@ == m@),
        r matches Ok(token) ==> is_subscription_token(token@),
{
    match seed {
        Ok(mut rng) => {
            let samples = draw_token_samples(&mut rng);
            let token = token_from_samples(&samples);
            proof {
                lemma_token_samples_write_a_token(samples@);
            }
            Ok(token)
        },
        Err(msg) => Err(msg),
    }
}

/// A fresh random subscription token: 25 ASCII letters and digits drawn from a
/// generator seeded by the operating system, or the seeding error's message
/// when the operating system cannot provide randomness; the only failure is
/// that of seeding.
pub fn generate_subscription_token() -> (r: Result<String, String>)
    ensures
        r matches Ok(token) ==> is_subscription_token(token@),
{
    token_from_seed(seed_from_os())
}

/// The link that confirms a subscription.
pub open spec fn confirmation_link_view(base_url: Seq<char>, token: Seq<char>) -> Seq<char> {
    base_url + "/subscriptions/confirm?subscription_token="@ + token
}

/// The confirmation email sent to a new subscriber.
pub open spec fn confirmation_email_view(email: Seq<char>, base_url: Seq<char>, token: Seq<char>) -> EmailMessageView {
    let link = confirmation_link_view(base_url, token);
    EmailMessageView {
        recipient: email,
        subject: "Welcome!"@,
        html_content: "Welcome to our newsletter!< br />Click <a href=\""@ + link
            + "\">here</a> to confirm your subscription."@,
        text_content: "Welcome to our newsletter!\nVisit "@ + link + " to confirm your subscription."@,
    }
}

/// The link that confirms the subscription that `subscription_token` belongs to.
pub fn confirmation_link(base_url: &str, subscription_token: &str) -> (link: String)
    ensures
        link@ == confirmation_link_view(base_url@, subscription_token@),
{
    let mut link = String::from_str(base_url);
    link.append("/subscriptions/confirm?subscription_token=");
    link.append(subscription_token);
    link
}

/// The welcome email that asks a new subscriber to confirm, in HTML and in
/// plain text, both carrying the confirmation link.
pub fn confirmation_email(email: &SubscriberEmail, base_url: &str, subscription_token: &str) -> (m: EmailMessage)
    ensures
        m@ == confirmation_email_view(email@, base_url@, subscription_token@),
{
    let link = confirmation_link(base_url, subscription_token);
    let mut html_content = String::from_str("Welcome to our newsletter!< br />Click <a href=\"");
    html_content.append(link.as_str());
    html_content.append("\">here</a> to confirm your subscription.");
    let mut text_content = String::from_str("Welcome to our newsletter!\nVisit ");
    text_content.append(link.as_str());
    text_content.append(" to confirm your subscription.");
    EmailMessage {
        recipient: String::from_str(email.as_ref()),
        subject: String::from_str("Welcome!"),
        html_content,
        text_content,
    }
}

/// Where a subscription stands: the step whose outcome is awaited.
#[derive(PartialEq, Eq, Structural, Clone, Copy)]
pub enum SubscribeStage {
    BeginTransaction,
    InsertSubscriber,
    StoreToken,
    CommitTransaction,
    SendConfirmation,
    Finished,
}

/// A subscription in progress: the validated subscriber, the base URL of the
/// service, the token once one is chosen, and the stage reached.
pub struct SubscribeFlow {
    pub subscriber: NewSubscriber,
    pub base_url: String,
    pub subscription_token: String,
    pub stage: SubscribeStage,
}

/// The mathematical content of a [`SubscribeFlow`].
#[verifier::ext_equal]
pub struct SubscribeFlowView {
    pub subscriber: NewSubscriberView,
    pub base_url: Seq<char>,
    pub subscription_token: Seq<char>,
    pub stage: SubscribeStage,
}

impl View for SubscribeFlow {
    type V = SubscribeFlowView;

    open spec fn view(&self) -> SubscribeFlowView {
        SubscribeFlowView {
            subscriber: self.subscriber@,
            base_url: self.base_url@,
            subscription_token: self.subscription_token@,
            stage: self.stage,
        }
    }
}

/// What the service must do next for a subscription.
pub enum SubscribeAction {
    /// Open a database transaction.
    BeginTransaction,
    /// Insert the subscriber, pending confirmation, in the transaction.
    InsertSubscriber { email: String, name: String },
    /// Store the token for the inserted subscriber in the transaction.
    StoreToken(String),
    /// Commit the transaction.
    CommitTransaction,
    /// Send this email.
    SendEmail(EmailMessage),
    /// Answer the request with this result.
    Finish(Result<(), SubscribeError>),
}

/// The mathematical content of a [`SubscribeAction`].
#[verifier::ext_equal]
pub enum SubscribeActionView {
    BeginTransaction,
    InsertSubscriber { email: Seq<char>, name: Seq<char> },
    StoreToken(Seq<char>),
    CommitTransaction,
    SendEmail(EmailMessageView),
    Finish(Result<(), SubscribeErrorView>),
}

impl View for SubscribeAction {
    type V = SubscribeActionView;

    open spec fn view(&self) -> SubscribeActionView {
        match self {
            SubscribeAction::BeginTransaction => SubscribeActionView::BeginTransaction,
            SubscribeAction::InsertSubscriber { email, name } => SubscribeActionView::InsertSubscriber {
                email: email@,
                name: name@,
            },
            SubscribeAction::StoreToken(t) => SubscribeActionView::StoreToken(t@),
            SubscribeAction::CommitTransaction => SubscribeActionView::CommitTransaction,
            SubscribeAction::SendEmail(m) => SubscribeActionView::SendEmail(m@),
            SubscribeAction::Finish(r) => SubscribeActionView::Finish(
                match r {
                    Ok(()) => Ok(()),
                    Err(e) => Err(e@),
                },
            ),
        }
    }
}

/// The context in which the failure of a step is reported.
pub open spec fn stage_context(stage: SubscribeStage) -> Seq<char> {
    match stage {
        SubscribeStage::BeginTransaction => "Failed to acquire a Postgress connection from the pool"@,
        SubscribeStage::InsertSubscriber => "Failed to insert new subsriber in the database"@,
        SubscribeStage::StoreToken => "Failed to store the confirmation token for a new subscriber."@,
        SubscribeStage::CommitTransaction => "Failed to commit SQL transaction to store a new subscriber."@,
        SubscribeStage::SendConfirmation => "Failed to send a confirmation email."@,
        SubscribeStage::Finished => Seq::empty(),
    }
}

/// The report of a token that could not be drawn: the failure's message
/// wrapped in the context of token generation.
pub open spec fn token_failure_report(msg: Seq<char>) -> ErrorReportView {
    context_view(
        ErrorReportView { message: msg, causes: Seq::empty() },
        "Failed to generate a subscription token."@,
    )
}

/// A form is refused exactly when its name is not a valid subscriber name or
/// its address not a valid email, and the name is judged first.
pub proof fn lemma_form_error_exactly_invalid_fields(email: Seq<char>, name: Seq<char>)
    ensures
        form_error(email, name) is None <==> is_valid_subscriber_name(name) && is_valid_email(email),
        !is_valid_subscriber_name(name) ==> form_error(email, name) == Some(invalid_name_message(name)),
        is_valid_subscriber_name(name) && !is_valid_email(email) ==> form_error(email, name) == Some(
            invalid_email_message(email),
        ),
{
}

/// How a subscription moves on from its current stage given the outcome of the
/// step it awaited; `draw` is what drawing a token gave right after the
/// subscriber was inserted: the token, or the message of the failure.
pub open spec fn subscribe_transition(
    flow: SubscribeFlowView,
    outcome: Result<(), ErrorReportView>,
    draw: Result<Seq<char>, Seq<char>>,
) -> (SubscribeFlowView, SubscribeActionView) {
    match outcome {
        Err(e) => (
            SubscribeFlowView { stage: SubscribeStage::Finished, ..flow },
            SubscribeActionView::Finish(
                Err(SubscribeErrorView::UnexpectedError(context_view(e, stage_context(flow.stage)))),
            ),
        ),
        Ok(()) => match flow.stage {
            SubscribeStage::BeginTransaction => (
                SubscribeFlowView { stage: SubscribeStage::InsertSubscriber, ..flow },
                SubscribeActionView::InsertSubscriber {
                    email: flow.subscriber.email,
                    name: flow.subscriber.name,
                },
            ),
            SubscribeStage::InsertSubscriber => match draw {
                Ok(token) => (
                    SubscribeFlowView {
                        stage: SubscribeStage::StoreToken,
                        subscription_token: token,
                        ..flow
                    },
                    SubscribeActionView::StoreToken(token),
                ),
                Err(msg) => (
                    SubscribeFlowView { stage: SubscribeStage::Finished, ..flow },
                    SubscribeActionView::Finish(
                        Err(SubscribeErrorView::UnexpectedError(token_failure_report(msg))),
                    ),
                ),
            },
            SubscribeStage::StoreToken => (
                SubscribeFlowView { stage: SubscribeStage::CommitTransaction, ..flow },
                SubscribeActionView::CommitTransaction,
            ),
            SubscribeStage::CommitTransaction => (
                SubscribeFlowView { stage: SubscribeStage::SendConfirmation, ..flow },
                SubscribeActionView::SendEmail(
                    confirmation_email_view(flow.subscriber.email, flow.base_url, flow.subscription_token),
                ),
            ),
            SubscribeStage::SendConfirmation => (
                SubscribeFlowView { stage: SubscribeStage::Finished, ..flow },
                SubscribeActionView::Finish(Ok(())),
            ),
            SubscribeStage::Finished => (flow, SubscribeActionView::Finish(Ok(()))),
        },
    }
}

pub open spec fn outcome_view(outcome: Result<(), ErrorReport>) -> Result<(), ErrorReportView> {
    match outcome {
        Ok(()) => Ok(()),
        Err(e) => Err(e@),
    }
}

fn stage_context_message(stage: SubscribeStage) -> (m: String)
    ensures
        m@ == stage_context(stage),
{
    match stage {
        SubscribeStage::BeginTransaction => String::from_str("Failed to acquire a Postgress connection from the pool"),
        SubscribeStage::InsertSubscriber => String::from_str("Failed to insert new subsriber in the database"),
        SubscribeStage::StoreToken => String::from_str("Failed to store the confirmation token for a new subscriber."),
        SubscribeStage::CommitTransaction => String::from_str("Failed to commit SQL transaction to store a new subscriber."),
        SubscribeStage::SendConfirmation => String::from_str("Failed to send a confirmation email."),
        SubscribeStage::Finished => String::new(),
    }
}

/// Starts a subscription from the submitted form. A refused form ends the
/// subscription at once with a validation error, before anything is stored;
/// an accepted one asks for a database transaction.
pub fn subscribe_start(form: FormData, base_url: String) -> (r: (Option<SubscribeFlow>, SubscribeAction))
    ensures
        r.0 is None <==> form_error(form.email@, form.name@) is Some,
        r.0 is Some <==> is_valid_subscriber_name(form.name@) && is_valid_email(form.email@),
        form_error(form.email@, form.name@) matches Some(msg) ==> r.1@ == SubscribeActionView::Finish(
            Err(SubscribeErrorView::ValidationError(msg)),
        ),
        r.0 matches Some(flow) ==> {
            &&& flow@ == (SubscribeFlowView {
                subscriber: NewSubscriberView { email: form.email@, name: form.name@ },
                base_url: base_url@,
                subscription_token: Seq::empty(),
                stage: SubscribeStage::BeginTransaction,
            })
            &&& r.1@ == SubscribeActionView::BeginTransaction
        },
{
    match NewSubscriber::try_from(form) {
        Err(msg) => (None, SubscribeAction::Finish(Err(SubscribeError::ValidationError(msg)))),
        Ok(subscriber) => (
            Some(
                SubscribeFlow {
                    subscriber,
                    base_url,
                    subscription_token: String::new(),
                    stage: SubscribeStage::BeginTransaction,
                },
            ),
            SubscribeAction::BeginTransaction,
        ),
    }
}

/// What a draw of a token gave, as text.
pub open spec fn draw_view(draw: Result<String, String>) -> Result<Seq<char>, Seq<char>> {
    match draw {
        Ok(token) => Ok(token@),
        Err(msg) => Err(msg@),
    }
}

/// Moves a subscription on from the insertion of its subscriber with the token
/// that was drawn for it: the drawn token, unchanged, is the one to store and
/// the one the flow keeps for the confirmation link; a failed draw ends the
/// subscription with an unexpected error.
pub fn store_drawn_token(flow: SubscribeFlow, draw: Result<String, String>) -> (r: (SubscribeFlow, SubscribeAction))
    requires
        flow.stage == SubscribeStage::InsertSubscriber,
    ensures
        (r.0@, r.1@) == subscribe_transition(flow@, Ok(()), draw_view(draw)),
        draw matches Ok(token) ==> r.0@.subscription_token == token@ && r.1@ == SubscribeActionView::StoreToken(
            token@,
        ),
        draw is Err ==> r.0.stage == SubscribeStage::Finished,
        r.0@.subscriber == flow@.subscriber,
        r.0@.base_url == flow@.base_url,
{
    let SubscribeFlow { subscriber, base_url, subscription_token, stage: _ } = flow;
    match draw {
        Ok(token) => {
            let stored = token.clone();
            (
                SubscribeFlow { subscriber, base_url, subscription_token: token, stage: SubscribeStage::StoreToken },
                SubscribeAction::StoreToken(stored),
            )
        },
        Err(msg) => {
            let failure = ErrorReport::new(msg);
            let error = SubscribeError::UnexpectedError(
                failure.context(String::from_str("Failed to generate a subscription token.")),
            );
            (
                SubscribeFlow { subscriber, base_url, subscription_token, stage: SubscribeStage::Finished },
                SubscribeAction::Finish(Err(error)),
            )
        },
    }
}

/// Moves a subscription on once the step it awaited has its outcome: a failed
/// step ends it with an unexpected error wrapped in the step's context; a
/// successful one asks for the next step. The token is chosen at random right
/// after the subscriber is inserted.
pub fn subscribe_step(flow: SubscribeFlow, outcome: Result<(), ErrorReport>) -> (r: (SubscribeFlow, SubscribeAction))
    requires
        flow.stage != SubscribeStage::Finished,
    ensures
        exists|draw: Result<Seq<char>, Seq<char>>|
            {
                &&& (draw matches Ok(token) ==> is_subscription_token(token))
                &&& (r.0@, r.1@) == #[trigger] subscribe_transition(flow@, outcome_view(outcome), draw)
            },
{
    let ghost flow_view = flow@;
    let ghost mut draw: Result<Seq<char>, Seq<char>> = Err(Seq::empty());
    let SubscribeFlow { subscriber, base_url, subscription_token, stage } = flow;
    let r = match outcome {
        Err(e) => {
            let context = stage_context_message(stage);
            let error = SubscribeError::UnexpectedError(e.context(context));
            (
                SubscribeFlow { subscriber, base_url, subscription_token, stage: SubscribeStage::Finished },
                SubscribeAction::Finish(Err(error)),
            )
        },
        Ok(()) => match stage {
            SubscribeStage::BeginTransaction => {
                let email = String::from_str(subscriber.email.as_ref());
                let name = String::from_str(subscriber.name.as_ref());
                (
                    SubscribeFlow { subscriber, base_url, subscription_token, stage: SubscribeStage::InsertSubscriber },
                    SubscribeAction::InsertSubscriber { email, name },
                )
            },
            SubscribeStage::InsertSubscriber => {
                let drawn = generate_subscription_token();
                proof {
                    draw = draw_view(drawn);
                }
                store_drawn_token(
                    SubscribeFlow { subscriber, base_url, subscription_token, stage },
                    drawn,
                )
            },
            SubscribeStage::StoreToken => (
                SubscribeFlow { subscriber, base_url, subscription_token, stage: SubscribeStage::CommitTransaction },
                SubscribeAction::CommitTransaction,
            ),
            SubscribeStage::CommitTransaction => {
                let message = confirmation_email(&subscriber.email, base_url.as_str(), subscription_token.as_str());
                (
                    SubscribeFlow { subscriber, base_url, subscription_token, stage: SubscribeStage::SendConfirmation },
                    SubscribeAction::SendEmail(message),
                )
            },
            _ => (
                SubscribeFlow { subscriber, base_url, subscription_token, stage: SubscribeStage::Finished },
                SubscribeAction::Finish(Ok(())),
            ),
        },
    };
    assert((r.0@, r.1@) == subscribe_transition(flow_view, outcome_view(outcome), draw));
    r
}

/// The HTTP status with which a subscription request is answered.
pub open spec fn subscribe_status_view(result: Result<(), SubscribeErrorView>) -> u16 {
    match result {
        Ok(()) => 200,
        Err(SubscribeErrorView::ValidationError(_)) => 400,
        Err(SubscribeErrorView::UnexpectedError(_)) => 500,
    }
}

/// Answers a subscription: 200 when it went through, 400 for a refused form,
/// 500 for any other failure.
pub fn subscribe_response_status(result: &Result<(), SubscribeError>) -> (status: u16)
    ensures
        status == subscribe_status_view(
            match result {
                Ok(()) => Ok(()),
                Err(e) => Err(e@),
            },
        ),
{
    match result {
        Ok(()) => 200,
        Err(SubscribeError::ValidationError(_)) => 400,
        Err(SubscribeError::UnexpectedError(_)) => 500,
    }
}

/// A subscription that meets no failure inserts the subscriber, stores a token,
/// commits, sends the subscriber a confirmation email whose link carries the
/// very token that was stored, and is answered 200; `t1` to `t5` stand for the
/// draws that the five steps could make, of which only the second, the token
/// drawn after the insertion, is used.
pub proof fn lemma_subscription_happy_path(
    flow: SubscribeFlowView,
    t1: Result<Seq<char>, Seq<char>>,
    t2: Seq<char>,
    t3: Result<Seq<char>, Seq<char>>,
    t4: Result<Seq<char>, Seq<char>>,
    t5: Result<Seq<char>, Seq<char>>,
)
    requires
        flow.stage == SubscribeStage::BeginTransaction,
    ensures
        ({
            let s1 = subscribe_transition(flow, Ok(()), t1);
            let s2 = subscribe_transition(s1.0, Ok(()), Ok(t2));
            let s3 = subscribe_transition(s2.0, Ok(()), t3);
            let s4 = subscribe_transition(s3.0, Ok(()), t4);
            let s5 = subscribe_transition(s4.0, Ok(()), t5);
            &&& s1.1 == SubscribeActionView::InsertSubscriber {
                email: flow.subscriber.email,
                name: flow.subscriber.name,
            }
            &&& s2.1 == SubscribeActionView::StoreToken(t2)
            &&& s3.1 == SubscribeActionView::CommitTransaction
            &&& s4.1 == SubscribeActionView::SendEmail(
                confirmation_email_view(flow.subscriber.email, flow.base_url, t2),
            )
            &&& s5.1 == SubscribeActionView::Finish(Ok(()))
            &&& s5.0.stage == SubscribeStage::Finished
            &&& subscribe_status_view(Ok(())) == 200
        }),
{
}

/// A step that fails ends the subscription, and the request is answered 500
/// with the failure wrapped in the context of that step.
pub proof fn lemma_failed_step_answers_500(flow: SubscribeFlowView, e: ErrorReportView, t: Result<Seq<char>, Seq<char>>)
    requires
        flow.stage != SubscribeStage::Finished,
    ensures
        subscribe_transition(flow, Err(e), t).0.stage == SubscribeStage::Finished,
        subscribe_transition(flow, Err(e), t).1 == SubscribeActionView::Finish(
            Err(SubscribeErrorView::UnexpectedError(context_view(e, stage_context(flow.stage)))),
        ),
        subscribe_status_view(Err(SubscribeErrorView::UnexpectedError(context_view(e, stage_context(flow.stage))))) == 500,
{
}

/// When no token can be drawn after the insertion, the subscription ends and
/// the request is answered 500 with the failure in the context of token
/// generation.
pub proof fn lemma_failed_token_draw_answers_500(flow: SubscribeFlowView, msg: Seq<char>)
    requires
        flow.stage == SubscribeStage::InsertSubscriber,
    ensures
        subscribe_transition(flow, Ok(()), Err(msg)).0.stage == SubscribeStage::Finished,
        subscribe_transition(flow, Ok(()), Err(msg)).1 == SubscribeActionView::Finish(
            Err(SubscribeErrorView::UnexpectedError(token_failure_report(msg))),
        ),
        subscribe_status_view(Err(SubscribeErrorView::UnexpectedError(token_failure_report(msg)))) == 500,
{
}

/// A refused form is answered 400 with the message that says why.
pub proof fn lemma_refused_form_answers_400(email: Seq<char>, name: Seq<char>)
    requires
        form_error(email, name) is Some,
    ensures
        subscribe_status_view(Err(SubscribeErrorView::ValidationError(form_error(email, name)->0))) == 400,
{
}

} // verus!
