use vstd::prelude::*;
use vstd::string::*;

verus! {

/// Which layer of the module an error was raised in.
#[derive(Debug, Clone, Copy, PartialEq, Eq, Structural, PartialOrd, Ord)]
pub enum ErrorKind {
    Main,
    HttpClient,
    AwsSdk,
}

/// The name under which a kind appears in an error's text.
pub open spec fn kind_label(kind: ErrorKind) -> Seq<char> {
    match kind {
        ErrorKind::Main => "Main"@,
        ErrorKind::HttpClient => "HttpClient"@,
        ErrorKind::AwsSdk => "AwsSdk"@,
    }
}

impl ErrorKind {
    /// The name of the kind, as it is printed in front of an error's text.
    pub fn label(&self) -> (r: &'static str)
        ensures
            r@ == kind_label(*self),
    {
        match self {
            ErrorKind::Main => "Main",
            ErrorKind::HttpClient => "HttpClient",
            ErrorKind::AwsSdk => "AwsSdk",
        }
    }
}

/// The error every exported function of the module fails with: the text of the
/// underlying failure, and the layer it was raised in.
pub struct Error {
    pub source: String,
    pub kind: ErrorKind,
}

/// An error as a value: the text of its source and its kind.
pub struct ErrorView {
    pub source: Seq<char>,
    pub kind: ErrorKind,
}

impl View for Error {
    type V = ErrorView;

    open spec fn view(&self) -> ErrorView {
        ErrorView { source: self.source@, kind: self.kind }
    }
}

/// An error of the given kind whose source has the given text.
pub open spec fn error_of(source: Seq<char>, kind: ErrorKind) -> ErrorView {
    ErrorView { source, kind }
}

/// The text of an error: the kind in brackets in front of the source's text,
/// except for errors of the main layer, whose text is the source's text alone.
pub open spec fn error_text(e: ErrorView) -> Seq<char> {
    if e.kind == ErrorKind::Main {
        e.source
    } else {
        "["@ + kind_label(e.kind) + "] "@ + e.source
    }
}

impl Error {
    /// An error of the main layer with the given text.
    pub fn msg(text: &str) -> (e: Error)
        ensures
            e@ == error_of(text@, ErrorKind::Main),
    {
        Error { source: String::from_str(text), kind: ErrorKind::Main }
    }

    /// An error of the main layer whose text is `prefix` followed by `rest`.
    pub fn msg2(prefix: &str, rest: &str) -> (e: Error)
        ensures
            e@ == error_of(prefix@ + rest@, ErrorKind::Main),
    {
        let mut source = String::from_str(prefix);
        source.append(rest);
        Error { source, kind: ErrorKind::Main }
    }

    /// The same error with `suffix` added to the end of its source's text.
    pub fn with_suffix(self, suffix: &str) -> (e: Error)
        ensures
            e@ == error_of(self@.source + suffix@, self@.kind),
    {
        let mut source = self.source;
        source.append(suffix);
        Error { source, kind: self.kind }
    }

    /// The error's text, as it is displayed and debug-printed.
    pub fn to_text(&self) -> (s: String)
        ensures
            s@ == error_text(self@),
    {
        if self.kind != ErrorKind::Main {
            let mut s = String::from_str("[");
            s.append(self.kind.label());
            s.append("] ");
            s.append(self.source.as_str());
            s
        } else {
            self.source.clone()
        }
    }

    /// Converts a failure of the module into its error: an error that was
    /// wrapped is unwrapped unchanged; any other failure becomes an error of the
    /// main layer with the failure's text.
    pub fn from_source(source: ErrorSource) -> (e: Error)
        ensures
            e@ == source_error(source@),
    {
        match source {
            ErrorSource::Message(text) => Error { source: text, kind: ErrorKind::Main },
            ErrorSource::Wrapped(wrapper) => wrapper.0,
        }
    }

    /// Converts a failed S3 request into its error. A dispatch failure on the
    /// connection whose cause is a wrapped error gives that error back; every
    /// other failure becomes an error of the AWS SDK layer with its text.
    pub fn from_sdk(failure: SdkFailure) -> (e: Error)
        ensures
            e@ == sdk_error(failure@),
    {
        match failure {
            SdkFailure::DispatchIo(ConnectorCause::Wrapped(wrapper)) => wrapper.0,
            SdkFailure::DispatchIo(ConnectorCause::Other(text)) => Error {
                source: text,
                kind: ErrorKind::AwsSdk,
            },
            SdkFailure::Other(text) => Error { source: text, kind: ErrorKind::AwsSdk },
        }
    }
}

/// An error carried through a layer that only passes plain failures on, so that
/// it can be recognised and unwrapped on the other side.
pub struct ErrorWrapper(Error);

impl View for ErrorWrapper {
    type V = ErrorView;

    closed spec fn view(&self) -> ErrorView {
        self.0@
    }
}

impl ErrorWrapper {
    /// The error inside the wrapper.
    pub fn into_inner(self) -> (e: Error)
        ensures
            e@ == self@,
    {
        self.0
    }

    /// The text of the wrapped error.
    pub fn to_text(&self) -> (s: String)
        ensures
            s@ == error_text(self@),
    {
        self.0.to_text()
    }
}

/// A failure as it reaches the module's error type: either a plain failure with
/// its text, or an error that was wrapped on its way.
pub enum ErrorSource {
    Message(String),
    Wrapped(ErrorWrapper),
}

pub enum ErrorSourceView {
    Message(Seq<char>),
    Wrapped(ErrorView),
}

impl View for ErrorSource {
    type V = ErrorSourceView;

    open spec fn view(&self) -> ErrorSourceView {
        match self {
            ErrorSource::Message(text) => ErrorSourceView::Message(text@),
            ErrorSource::Wrapped(w) => ErrorSourceView::Wrapped(w@),
        }
    }
}

/// What a failure becomes as an error of the module.
pub open spec fn source_error(s: ErrorSourceView) -> ErrorView {
    match s {
        ErrorSourceView::Message(text) => error_of(text, ErrorKind::Main),
        ErrorSourceView::Wrapped(e) => e,
    }
}

/// What the HTTP connector reported as the cause of a failed connection.
pub enum ConnectorCause {
    Wrapped(ErrorWrapper),
    Other(String),
}

/// A failed S3 request: a dispatch failure on the connection (with the cause its
/// connector reported), or any other failure, with its text.
pub enum SdkFailure {
    DispatchIo(ConnectorCause),
    Other(String),
}

pub enum SdkFailureView {
    DispatchWrapped(ErrorView),
    DispatchOther(Seq<char>),
    Other(Seq<char>),
}

impl View for SdkFailure {
    type V = SdkFailureView;

    open spec fn view(&self) -> SdkFailureView {
        match self {
            SdkFailure::DispatchIo(ConnectorCause::Wrapped(w)) => SdkFailureView::DispatchWrapped(w@),
            SdkFailure::DispatchIo(ConnectorCause::Other(t)) => SdkFailureView::DispatchOther(t@),
            SdkFailure::Other(t) => SdkFailureView::Other(t@),
        }
    }
}

/// What a failed S3 request becomes as an error of the module.
pub open spec fn sdk_error(f: SdkFailureView) -> ErrorView {
    match f {
        SdkFailureView::DispatchWrapped(e) => e,
        SdkFailureView::DispatchOther(text) => error_of(text, ErrorKind::AwsSdk),
        SdkFailureView::Other(text) => error_of(text, ErrorKind::AwsSdk),
    }
}

/// Converting into the module's error, and wrapping the result with a kind.
pub trait WrapError: Sized {
    /// The error this value converts into.
    spec fn as_error(&self) -> ErrorView;

    /// Converts into the module's error, replaces its kind, and wraps it.
    fn wrap(self, kind: ErrorKind) -> (w: ErrorWrapper)
        ensures
            w@ == error_of(self.as_error().source, kind),
    ;
}

impl WrapError for Error {
    open spec fn as_error(&self) -> ErrorView {
        self@
    }

    fn wrap(self, kind: ErrorKind) -> (w: ErrorWrapper) {
        let mut err = self;
        err.kind = kind;
        ErrorWrapper(err)
    }
}

impl WrapError for ErrorSource {
    open spec fn as_error(&self) -> ErrorView {
        source_error(self@)
    }

    fn wrap(self, kind: ErrorKind) -> (w: ErrorWrapper) {
        let mut err = Error::from_source(self);
        err.kind = kind;
        ErrorWrapper(err)
    }
}

impl WrapError for SdkFailure {
    open spec fn as_error(&self) -> ErrorView {
        sdk_error(self@)
    }

    fn wrap(self, kind: ErrorKind) -> (w: ErrorWrapper) {
        let mut err = Error::from_sdk(self);
        err.kind = kind;
        ErrorWrapper(err)
    }
}

} // verus!
