//! The metadata provider: the three strings that describe the running build.

use vstd::prelude::*;

verus! {

/// The text that stands in for a metadata input that is unset or empty.
pub const FALLBACK: &'static str = "NULL";

/// The characters of [`FALLBACK`].
pub open spec fn fallback_text() -> Seq<char> {
    seq!['N', 'U', 'L', 'L']
}

/// What a metadata input is to Verus: its characters, or `None` when it is unset.
pub open spec fn input_text(input: Option<&str>) -> Option<Seq<char>> {
    match input {
        Some(s) => Some(s@),
        None => None,
    }
}

/// The value of a field whose input is `input`: the input itself, character
/// for character, unless it is unset or empty; then the fallback.
pub open spec fn resolved(input: Option<Seq<char>>) -> Seq<char> {
    match input {
        Some(v) => if v.len() == 0 {
            fallback_text()
        } else {
            v
        },
        None => fallback_text(),
    }
}

/// The mathematical value of a [`ServiceInfo`].
pub struct ServiceInfoView {
    pub name: Seq<char>,
    pub version: Seq<char>,
    pub repository: Seq<char>,
}

/// The service information that comes of three metadata inputs.
pub open spec fn provided(
    name: Option<Seq<char>>,
    version: Option<Seq<char>>,
    repository: Option<Seq<char>>,
) -> ServiceInfoView {
    ServiceInfoView {
        name: resolved(name),
        version: resolved(version),
        repository: resolved(repository),
    }
}

/// Name, version and repository of the running build. No field is ever empty:
/// where a value was not available the field holds [`FALLBACK`].
#[derive(Debug)]
pub struct ServiceInfo {
    name: String,
    version: String,
    repository: String,
}

impl View for ServiceInfo {
    type V = ServiceInfoView;

    closed spec fn view(&self) -> ServiceInfoView {
        ServiceInfoView { name: self.name@, version: self.version@, repository: self.repository@ }
    }
}

/// Proves what [`FALLBACK`] holds.
pub proof fn lemma_fallback_text()
    ensures
        FALLBACK@ == fallback_text(),
        fallback_text().len() == 4,
{
    reveal_strlit("NULL");
}

/// Resolves one metadata input to the value of its field.
pub fn resolve_field(input: Option<&str>) -> (value: String)
    ensures
        value@ == resolved(input_text(input)),
        value@.len() > 0,
{
    proof {
        lemma_fallback_text();
    }
    match input {
        Some(s) => {
            if s.is_empty() {
                FALLBACK.to_owned()
            } else {
                s.to_owned()
            }
        },
        None => FALLBACK.to_owned(),
    }
}

impl ServiceInfo {
    #[verifier::type_invariant]
    spec fn no_field_is_empty(&self) -> bool {
        &&& self.name@.len() > 0
        &&& self.version@.len() > 0
        &&& self.repository@.len() > 0
    }

    /// Builds the service information from the three metadata inputs, each of
    /// which may be unset.
    pub fn resolve(name: Option<&str>, version: Option<&str>, repository: Option<&str>) -> (info:
        ServiceInfo)
        ensures
            info@ == provided(input_text(name), input_text(version), input_text(repository)),
    {
        ServiceInfo {
            name: resolve_field(name),
            version: resolve_field(version),
            repository: resolve_field(repository),
        }
    }

    /// The name of the service.
    pub fn name(&self) -> (value: &str)
        ensures
            value@ == self@.name,
            value@.len() > 0,
    {
        proof {
            use_type_invariant(self);
        }
        self.name.as_str()
    }

    /// The version of the running build.
    pub fn version(&self) -> (value: &str)
        ensures
            value@ == self@.version,
            value@.len() > 0,
    {
        proof {
            use_type_invariant(self);
        }
        self.version.as_str()
    }

    /// The address of the repository that the build was made from.
    pub fn repository(&self) -> (value: &str)
        ensures
            value@ == self@.repository,
            value@.len() > 0,
    {
        proof {
            use_type_invariant(self);
        }
        self.repository.as_str()
    }
}

} // verus!
