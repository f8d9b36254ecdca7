use vstd::prelude::*;

verus! {

/// An error as the service reports it: the message of the outermost error and
/// the messages of the errors that caused it, outermost cause first.
pub struct ErrorReport {
    pub message: String,
    pub causes: Vec<String>,
}

/// The mathematical content of an [`ErrorReport`].
pub struct ErrorReportView {
    pub message: Seq<char>,
    pub causes: Seq<Seq<char>>,
}

pub open spec fn strings_view(v: Seq<String>) -> Seq<Seq<char>> {
    v.map_values(|s: String| s@)
}

impl View for ErrorReport {
    type V = ErrorReportView;

    open spec fn view(&self) -> ErrorReportView {
        ErrorReportView { message: self.message@, causes: strings_view(self.causes@) }
    }
}

/// The report of an error wrapped in a context message: the context becomes the
/// message, and the wrapped error heads the list of causes.
pub open spec fn context_view(report: ErrorReportView, context: Seq<char>) -> ErrorReportView {
    ErrorReportView { message: context, causes: seq![report.message] + report.causes }
}

/// The lines that name the causes of an error, one block per cause.
pub open spec fn causes_text(causes: Seq<Seq<char>>) -> Seq<char>
    decreases causes.len(),
{
    if causes.len() == 0 {
        Seq::empty()
    } else {
        causes_text(causes.drop_last()) + "Caused by:\n\t"@ + causes.last() + "\n"@
    }
}

/// The full text of an error chain: the error, a blank line, then its causes.
pub open spec fn chain_text(report: ErrorReportView) -> Seq<char> {
    report.message + "\n\n"@ + causes_text(report.causes)
}

impl ErrorReport {
    /// A report of an error that has no cause.
    pub fn new(message: String) -> (r: ErrorReport)
        ensures
            r@.message == message@,
            r@.causes == Seq::<Seq<char>>::empty(),
    {
        let r = ErrorReport { message, causes: Vec::new() };
        assert(r@.causes =~= Seq::<Seq<char>>::empty());
        r
    }

    /// A copy of this report.
    pub fn duplicate(&self) -> (r: ErrorReport)
        ensures
            r@ == self@,
    {
        let mut causes: Vec<String> = Vec::new();
        let mut i: usize = 0;
        while i < self.causes.len()
            invariant
                i <= self.causes.len(),
                strings_view(causes@) =~= strings_view(self.causes@).take(i as int),
            decreases self.causes.len() - i,
        {
            let ghost before = causes@;
            causes.push(self.causes[i].clone());
            assert(strings_view(causes@) =~= strings_view(before).push(self.causes@[i as int]@));
            assert(strings_view(self.causes@).take(i + 1) =~= strings_view(self.causes@).take(i as int).push(self.causes@[i as int]@));
            i = i + 1;
        }
        assert(strings_view(self.causes@).take(i as int) =~= strings_view(self.causes@));
        ErrorReport { message: self.message.clone(), causes }
    }

    /// Wraps this error in a context message.
    pub fn context(self, context: String) -> (r: ErrorReport)
        ensures
            r@ == context_view(self@, context@),
    {
        let mut causes: Vec<String> = Vec::new();
        causes.push(self.message);
        let mut i: usize = 0;
        while i < self.causes.len()
            invariant
                i <= self.causes.len(),
                strings_view(causes@) =~= seq![self@.message] + strings_view(self.causes@).take(i as int),
            decreases self.causes.len() - i,
        {
            let ghost before = causes@;
            causes.push(self.causes[i].clone());
            assert(strings_view(causes@) =~= strings_view(before).push(self.causes@[i as int]@));
            assert(strings_view(self.causes@).take(i + 1) =~= strings_view(self.causes@).take(i as int).push(self.causes@[i as int]@));
            i = i + 1;
        }
        assert(strings_view(self.causes@).take(i as int) =~= strings_view(self.causes@));
        ErrorReport { message: context, causes }
    }
}

/// Renders an error and the chain of its causes: the error's message followed by
/// an empty line, then one `Caused by:` block per cause, outermost first.
pub fn error_chain_fmt(report: &ErrorReport) -> (text: String)
    ensures
        text@ == chain_text(report@),
{
    let mut text = report.message.clone();
    text.append("\n\n");
    let mut i: usize = 0;
    while i < report.causes.len()
        invariant
            i <= report.causes.len(),
            text@ == report@.message + "\n\n"@ + causes_text(report@.causes.take(i as int)),
        decreases report.causes.len() - i,
    {
        assert(report@.causes.take(i + 1).drop_last() =~= report@.causes.take(i as int));
        text.append("Caused by:\n\t");
        text.append(report.causes[i].as_str());
        text.append("\n");
        i = i + 1;
    }
    assert(report@.causes.take(i as int) =~= report@.causes);
    text
}

proof fn lemma_causes_text_prepend(m: Seq<char>, causes: Seq<Seq<char>>)
    ensures
        causes_text(seq![m] + causes) == "Caused by:\n\t"@ + m + "\n"@ + causes_text(causes),
    decreases causes.len(),
{
    if causes.len() == 0 {
        assert(seq![m] + causes =~= seq![m]);
        assert(seq![m].drop_last() =~= Seq::<Seq<char>>::empty());
        assert(causes_text(seq![m]) == causes_text(Seq::<Seq<char>>::empty()) + "Caused by:\n\t"@ + m + "\n"@);
        assert(causes_text(seq![m]) =~= "Caused by:\n\t"@ + m + "\n"@ + causes_text(causes));
    } else {
        assert((seq![m] + causes).drop_last() =~= seq![m] + causes.drop_last());
        lemma_causes_text_prepend(m, causes.drop_last());
        assert((seq![m] + causes).last() == causes.last());
        assert(causes_text(seq![m] + causes) =~= "Caused by:\n\t"@ + m + "\n"@ + causes_text(causes));
    }
}

/// Rendering an error wrapped in a context gives the context, an empty line, the
/// wrapped error as the first cause, then the wrapped error's own causes.
pub proof fn lemma_context_rendering(report: ErrorReportView, context: Seq<char>)
    ensures
        chain_text(context_view(report, context)) == context + "\n\n"@ + "Caused by:\n\t"@
            + report.message + "\n"@ + causes_text(report.causes),
{
    lemma_causes_text_prepend(report.message, report.causes);
    assert(chain_text(context_view(report, context)) =~= context + "\n\n"@ + "Caused by:\n\t"@
            + report.message + "\n"@ + causes_text(report.causes));
}

} // verus!
