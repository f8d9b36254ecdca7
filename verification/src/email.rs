use vstd::prelude::*;

verus! {

/// An email that the service asks to be sent.
pub struct EmailMessage {
    pub recipient: String,
    pub subject: String,
    pub html_content: String,
    pub text_content: String,
}

/// The mathematical content of an [`EmailMessage`].
#[verifier::ext_equal]
pub struct EmailMessageView {
    pub recipient: Seq<char>,
    pub subject: Seq<char>,
    pub html_content: Seq<char>,
    pub text_content: Seq<char>,
}

impl View for EmailMessage {
    type V = EmailMessageView;

    open spec fn view(&self) -> EmailMessageView {
        EmailMessageView {
            recipient: self.recipient@,
            subject: self.subject@,
            html_content: self.html_content@,
            text_content: self.text_content@,
        }
    }
}

} // verus!
