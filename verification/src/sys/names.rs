//! The checks on names that become part of a path, and the joining of paths.

use crate::error::{AgentError, ErrorKind};
use crate::text::{
    all_in,
    has_dot_dot,
    str_all_in,
    str_contains_char,
    str_has_dot_dot,
    CharClass,
};
use vstd::prelude::*;
use vstd::string::*;

verus! {

/// A path component is safe where it holds neither `..` nor a slash of either
/// kind.
pub open spec fn is_safe_component(s: Seq<char>) -> bool {
    !has_dot_dot(s) && !s.contains('/') && !s.contains('\\')
}

/// The path of `component` below `base`.
pub open spec fn joined(base: Seq<char>, component: Seq<char>) -> Seq<char> {
    base + "/"@ + component
}

/// Why a domain name is refused, if it is: for being empty or holding `..` or
/// `/`, or else for a character that is no ASCII letter, digit, `-` or `.`.
pub open spec fn domain_fault(domain: Seq<char>) -> Option<Seq<char>> {
    if domain.len() == 0 || has_dot_dot(domain) || domain.contains('/') {
        Some("SECURITY VIOLATION: Invalid domain name format"@)
    } else if !all_in(domain, CharClass::Domain) {
        Some("SECURITY VIOLATION: Domain contains illegal characters"@)
    } else {
        None
    }
}

/// A user or job name: one or more ASCII letters, digits and hyphens.
pub open spec fn is_label(name: Seq<char>) -> bool {
    name.len() > 0 && all_in(name, CharClass::Label)
}

/// The user that an application runs as.
pub open spec fn app_user(app_id: Seq<char>) -> Seq<char> {
    "kari-app-"@ + app_id
}

/// The service that serves a domain.
pub open spec fn domain_service(domain: Seq<char>) -> Seq<char> {
    "kari-"@ + domain
}

/// Tells whether a string may become one component of a path.
pub fn is_safe(s: &str) -> (b: bool)
    ensures
        b == is_safe_component(s@),
{
    !str_has_dot_dot(s) && !str_contains_char(s, '/') && !str_contains_char(s, '\\')
}

/// Appends `component` to `base`, and refuses a component that could leave
/// `base`: one with `..`, `/` or `\` in it.
pub fn secure_join(base: &str, component: &str) -> (r: Result<String, AgentError>)
    ensures
        is_safe_component(component@) ==> r.is_ok() && r.unwrap()@ == joined(base@, component@),
        !is_safe_component(component@) ==> r.is_err() && r.unwrap_err().is(
            ErrorKind::InvalidArgument,
            "Path traversal detected"@,
        ),
        r.is_ok() ==> !has_dot_dot(component@) && !component@.contains('/')
            && !component@.contains('\\'),
{
    if !is_safe(component) {
        return Err(AgentError::new(ErrorKind::InvalidArgument, "Path traversal detected"));
    }
    let mut path = String::from_str(base);
    path.append("/");
    path.append(component);
    Ok(path)
}

/// Checks a domain name before it becomes part of a path.
pub fn check_domain(domain: &str) -> (r: Result<(), AgentError>)
    ensures
        match domain_fault(domain@) {
            Some(m) => r.is_err() && r.unwrap_err().is(ErrorKind::SecurityViolation, m),
            None => r.is_ok(),
        },
{
    if domain.unicode_len() == 0 || str_has_dot_dot(domain) || str_contains_char(domain, '/') {
        return Err(
            AgentError::new(
                ErrorKind::SecurityViolation,
                "SECURITY VIOLATION: Invalid domain name format",
            ),
        );
    }
    if !str_all_in(domain, CharClass::Domain) {
        return Err(
            AgentError::new(
                ErrorKind::SecurityViolation,
                "SECURITY VIOLATION: Domain contains illegal characters",
            ),
        );
    }
    Ok(())
}

/// Tells whether a name is one or more ASCII letters, digits and hyphens.
pub fn check_label(name: &str) -> (b: bool)
    ensures
        b == is_label(name@),
{
    name.unicode_len() > 0 && str_all_in(name, CharClass::Label)
}

/// The name of the user that an application runs as.
pub fn app_user_name(app_id: &str) -> (r: String)
    ensures
        r@ == app_user(app_id@),
{
    let mut r = String::from_str("kari-app-");
    r.append(app_id);
    r
}

/// The name of the service that serves a domain.
pub fn domain_service_name(domain: &str) -> (r: String)
    ensures
        r@ == domain_service(domain@),
{
    let mut r = String::from_str("kari-");
    r.append(domain);
    r
}

/// A domain name that passes the check is a safe path component.
pub proof fn lemma_checked_domain_is_safe(domain: Seq<char>)
    requires
        domain_fault(domain) is None,
    ensures
        is_safe_component(domain),
{
    if domain.contains('\\') {
        let i = choose|i: int| 0 <= i < domain.len() && domain[i] == '\\';
        assert(crate::text::allows(CharClass::Domain, domain[i]));
    }
}

} // verus!
