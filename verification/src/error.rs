//! The failures that registry operations report.

use vstd::prelude::*;
use vstd::string::*;

verus! {

/// Why a registry operation failed.
#[derive(Debug, PartialEq, Eq)]
pub enum RegistryError {
    /// The named service is not in the registry.
    NotFound(String),
    /// Durable storage could not be read or written, or held a malformed
    /// document; the text says what went wrong.
    Persistence(String),
    /// The caller's network origin is not trusted.
    AccessDenied,
}

/// The mathematical value of a [`RegistryError`].
pub ghost enum RegistryErrorView {
    NotFound(Seq<char>),
    Persistence(Seq<char>),
    AccessDenied,
}

impl View for RegistryError {
    type V = RegistryErrorView;

    open spec fn view(&self) -> RegistryErrorView {
        match self {
            RegistryError::NotFound(name) => RegistryErrorView::NotFound(name@),
            RegistryError::Persistence(detail) => RegistryErrorView::Persistence(detail@),
            RegistryError::AccessDenied => RegistryErrorView::AccessDenied,
        }
    }
}

/// The text shown for a service name that is not registered.
pub open spec fn not_found_text(name: Seq<char>) -> Seq<char> {
    "Service '"@ + name + "' not found in ports.json"@
}

/// The text shown to a caller from an untrusted origin.
pub open spec fn access_denied_text() -> Seq<char> {
    "Access denied: only local network allowed"@
}

/// The human-readable message of an error value.
pub open spec fn error_text(e: RegistryErrorView) -> Seq<char> {
    match e {
        RegistryErrorView::NotFound(name) => not_found_text(name),
        RegistryErrorView::Persistence(detail) => detail,
        RegistryErrorView::AccessDenied => access_denied_text(),
    }
}

impl RegistryError {
    /// The human-readable message carried in a failure response.
    pub fn message(&self) -> (text: String)
        ensures
            text@ == error_text(self@),
    {
        match self {
            RegistryError::NotFound(name) => {
                let mut text = String::from_str("Service '");
                text.append(name.as_str());
                text.append("' not found in ports.json");
                text
            },
            RegistryError::Persistence(detail) => detail.clone(),
            RegistryError::AccessDenied => String::from_str(
                "Access denied: only local network allowed",
            ),
        }
    }

    /// Whether the caller may safely retry the failed operation unchanged.
    pub fn is_retryable(&self) -> (retry: bool)
        ensures
            retry == (self@ is Persistence),
    {
        match self {
            RegistryError::Persistence(_) => true,
            _ => false,
        }
    }
}

impl Clone for RegistryError {
    fn clone(&self) -> (copy: Self)
        ensures
            copy@ == self@,
    {
        match self {
            RegistryError::NotFound(name) => RegistryError::NotFound(name.clone()),
            RegistryError::Persistence(detail) => RegistryError::Persistence(detail.clone()),
            RegistryError::AccessDenied => RegistryError::AccessDenied,
        }
    }
}

} // verus!
