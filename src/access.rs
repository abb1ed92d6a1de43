//! Which request paths the gateway refuses to hand to the worker.

use vstd::prelude::*;

use crate::bindings::{regex_compiles, regex_finds, regex_is_match};

verus! {

/// PHP scripts under the content and include directories, which are only
/// ever loaded by other scripts.
pub const PROTECTED_SCRIPTS: &'static str = r"^/(?:wp-content|wp-includes)/.*\.php$";

/// Certificates, configuration and source files.
pub const PROTECTED_FILES: &'static str = r"\.(?:crt|ini|htaccess|json|scss)$";

/// Whether a path may be served.
#[derive(Clone, Copy, Debug, PartialEq, Eq, Structural)]
pub enum Access {
    Allowed,
    Forbidden,
}

/// A path rule that does not compile as a regular expression.
#[derive(Clone, Copy, Debug, PartialEq, Eq, Structural)]
pub enum AccessError {
    InvalidRule,
}

/// The access owed to a path, from whether each rule matches it.
pub open spec fn access_for(protected_script: bool, protected_file: bool) -> Access {
    if protected_script || protected_file {
        Access::Forbidden
    } else {
        Access::Allowed
    }
}

/// Forbids a path when either rule matches it.
pub fn decide_access(protected_script: bool, protected_file: bool) -> (r: Access)
    ensures
        r == access_for(protected_script, protected_file),
{
    if protected_script || protected_file {
        Access::Forbidden
    } else {
        Access::Allowed
    }
}

/// Checks a request path against the rules, the protected scripts first;
/// fails when a rule that has to be consulted does not compile.
pub fn path_access(path: &str) -> (r: Result<Access, AccessError>)
    ensures
        r is Err <==> !regex_compiles(PROTECTED_SCRIPTS@) || (!regex_finds(
            PROTECTED_SCRIPTS@,
            path@,
        ) && !regex_compiles(PROTECTED_FILES@)),
        r matches Ok(Access::Forbidden) ==> regex_finds(PROTECTED_SCRIPTS@, path@) || regex_finds(
            PROTECTED_FILES@,
            path@,
        ),
        r matches Ok(Access::Allowed) ==> access_for(
            regex_finds(PROTECTED_SCRIPTS@, path@),
            regex_finds(PROTECTED_FILES@, path@),
        ) == Access::Allowed,
{
    let protected_script = match regex_is_match(PROTECTED_SCRIPTS, path) {
        Ok(found) => found,
        Err(_) => return Err(AccessError::InvalidRule),
    };
    if protected_script {
        return Ok(Access::Forbidden);
    }
    let protected_file = match regex_is_match(PROTECTED_FILES, path) {
        Ok(found) => found,
        Err(_) => return Err(AccessError::InvalidRule),
    };
    Ok(decide_access(protected_script, protected_file))
}

} // verus!
