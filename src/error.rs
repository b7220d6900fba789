//! Errors of the exchange with the search server.
use vstd::prelude::*;

verus! {

/// What went wrong in an exchange with the search server.
#[derive(Debug, Clone)]
pub enum RSolrError {
    /// The transport failed before or during the HTTP exchange.
    Network { source: String },
    /// The server answered 404.
    NotFound,
    /// The server answered with an error status and a message at `error.msg`.
    Syntax(String),
    /// The server answered with an error status and no readable message.
    Other { status: u16, body_text: String },
    /// A response could not be read as the caller's type.
    Serialization(String),
}

/// An error with its texts as sequences of characters.
pub enum ErrorView {
    Network { source: Seq<char> },
    NotFound,
    Syntax(Seq<char>),
    Other { status: u16, body_text: Seq<char> },
    Serialization(Seq<char>),
}

impl View for RSolrError {
    type V = ErrorView;

    open spec fn view(&self) -> ErrorView {
        match self {
            RSolrError::Network { source } => ErrorView::Network { source: source@ },
            RSolrError::NotFound => ErrorView::NotFound,
            RSolrError::Syntax(m) => ErrorView::Syntax(m@),
            RSolrError::Other { status, body_text } => ErrorView::Other { status: *status, body_text: body_text@ },
            RSolrError::Serialization(m) => ErrorView::Serialization(m@),
        }
    }
}

/// The kinds of error, for callers that branch on them.
#[derive(Debug, Clone, Copy, PartialEq, Eq, Structural)]
pub enum ErrorKind {
    Network,
    NotFound,
    SolrSyntax,
    Other,
    Serialization,
}

impl RSolrError {
    /// The kind of the error.
    pub open spec fn spec_kind(&self) -> ErrorKind {
        match self {
            RSolrError::Network { .. } => ErrorKind::Network,
            RSolrError::NotFound => ErrorKind::NotFound,
            RSolrError::Syntax(_) => ErrorKind::SolrSyntax,
            RSolrError::Other { .. } => ErrorKind::Other,
            RSolrError::Serialization(_) => ErrorKind::Serialization,
        }
    }

    /// The kind of the error.
    pub fn kind(&self) -> (r: ErrorKind)
        ensures
            r == self.spec_kind(),
    {
        match self {
            RSolrError::Network { .. } => ErrorKind::Network,
            RSolrError::NotFound => ErrorKind::NotFound,
            RSolrError::Syntax(_) => ErrorKind::SolrSyntax,
            RSolrError::Other { .. } => ErrorKind::Other,
            RSolrError::Serialization(_) => ErrorKind::Serialization,
        }
    }

    /// The HTTP status that the server answered with, where the error came from one.
    pub fn status(&self) -> (r: Option<u16>)
        ensures
            r == match self {
                RSolrError::NotFound => Some(404u16),
                RSolrError::Other { status, .. } => Some(*status),
                _ => None,
            },
    {
        match self {
            RSolrError::NotFound => Some(404),
            RSolrError::Other { status, .. } => Some(*status),
            _ => None,
        }
    }

    /// The text that goes with the error: the server's message, the raw body,
    /// the transport's or the decoder's words.
    pub fn message(&self) -> (r: Option<String>)
        ensures
            match self {
                RSolrError::Network { source } => r matches Some(m) && m@ == source@,
                RSolrError::NotFound => r is None,
                RSolrError::Syntax(msg) => r matches Some(m) && m@ == msg@,
                RSolrError::Other { body_text, .. } => r matches Some(m) && m@ == body_text@,
                RSolrError::Serialization(msg) => r matches Some(m) && m@ == msg@,
            },
    {
        match self {
            RSolrError::Network { source } => Some(source.clone()),
            RSolrError::NotFound => None,
            RSolrError::Syntax(msg) => Some(msg.clone()),
            RSolrError::Other { body_text, .. } => Some(body_text.clone()),
            RSolrError::Serialization(msg) => Some(msg.clone()),
        }
    }
}

} // verus!
