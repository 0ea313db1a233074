//! The home handler: the service information as a JSON answer.

use crate::encode::{json_string_text, string_literal};
use crate::json::{
    lemma_object_text_members, lemma_quoted_plain, member_text, member_value, members_text,
    object_field, object_members, object_text, quoted, string_value, Member,
};
use crate::metadata::{lemma_fallback_text, provided, ServiceInfo, ServiceInfoView};
use crate::response::{json_response, Response, ResponseView};
use vstd::prelude::*;
use vstd::string::StringExecFns;

verus! {

/// The text of the body, from the string literals of the three values: an
/// object in compact form with the keys `name`, `version` and `repository`, in
/// this order.
pub open spec fn home_text(name: Seq<char>, version: Seq<char>, repository: Seq<char>) -> Seq<
    char,
> {
    "{\"name\":"@ + name + ",\"version\":"@ + version + ",\"repository\":"@ + repository + "}"@
}

/// The members that the body holds for `info`.
pub open spec fn home_members(info: ServiceInfoView) -> Seq<Member> {
    seq![("name"@, info.name), ("version"@, info.version), ("repository"@, info.repository)]
}

/// Whether `response` is the answer of the home handler for `info`: status
/// 200, a JSON body with the text that `home_text` gives for the literals of
/// the three fields, which reads back as the three members of `info`.
pub open spec fn is_home_response(info: ServiceInfoView, response: ResponseView) -> bool {
    &&& response == json_response(
        home_text(
            json_string_text(info.name),
            json_string_text(info.version),
            json_string_text(info.repository),
        ),
    )
    &&& object_members(response.body) == Some(home_members(info))
}

/// The body text is an object text whose keys are the three names in quotes.
pub proof fn lemma_home_text_is_object_text(
    name: Seq<char>,
    version: Seq<char>,
    repository: Seq<char>,
)
    ensures
        home_text(name, version, repository) == object_text(
            seq![
                (quoted("name"@), name),
                (quoted("version"@), version),
                (quoted("repository"@), repository),
            ],
        ),
{
    reveal_strlit("name");
    reveal_strlit("version");
    reveal_strlit("repository");
    reveal_strlit("{\"name\":");
    reveal_strlit(",\"version\":");
    reveal_strlit(",\"repository\":");
    reveal_strlit("}");
    let literals = seq![
        (quoted("name"@), name),
        (quoted("version"@), version),
        (quoted("repository"@), repository),
    ];
    let two = literals.drop_first();
    assert(members_text(two) == member_text(two[0]) + seq![','] + members_text(two.drop_first()));
    assert(members_text(literals) == member_text(literals[0]) + seq![','] + members_text(two));
}

/// Where the three literals denote the fields of `info`, the body text reads
/// back as an object with exactly the members `name`, `version` and
/// `repository`, each with its field as the value.
pub proof fn lemma_home_text_members(
    name: Seq<char>,
    version: Seq<char>,
    repository: Seq<char>,
    info: ServiceInfoView,
)
    requires
        string_value(name) == Some(info.name),
        string_value(version) == Some(info.version),
        string_value(repository) == Some(info.repository),
    ensures
        object_members(home_text(name, version, repository)) == Some(home_members(info)),
{
    reveal_strlit("name");
    reveal_strlit("version");
    reveal_strlit("repository");
    lemma_quoted_plain("name"@);
    lemma_quoted_plain("version"@);
    lemma_quoted_plain("repository"@);
    let literals = seq![
        (quoted("name"@), name),
        (quoted("version"@), version),
        (quoted("repository"@), repository),
    ];
    lemma_home_text_is_object_text(name, version, repository);
    lemma_object_text_members(literals, home_members(info));
}

/// Frames the body from the string literals of the three values.
pub fn home_body(name: &str, version: &str, repository: &str) -> (body: String)
    ensures
        body@ == home_text(name@, version@, repository@),
{
    let mut body = String::from_str("{\"name\":");
    body.append(name);
    body.append(",\"version\":");
    body.append(version);
    body.append(",\"repository\":");
    body.append(repository);
    body.append("}");
    body
}

/// Answers with the service information. Nothing of a request is read: the
/// answer depends on `info` alone.
pub fn home(info: &ServiceInfo) -> (response: Response)
    ensures
        is_home_response(info@, response@),
{
    let name = string_literal(info.name());
    let version = string_literal(info.version());
    let repository = string_literal(info.repository());
    proof {
        lemma_home_text_members(name@, version@, repository@, info@);
    }
    Response::json(home_body(name.as_str(), version.as_str(), repository.as_str()))
}

/// The body of an answer of the home handler has the fields `name`, `version`
/// and `repository`, and each holds the field of `info` of that name,
/// character for character.
pub proof fn lemma_home_fields(info: ServiceInfoView, response: ResponseView)
    requires
        is_home_response(info, response),
    ensures
        object_field(response.body, "name"@) == Some(info.name),
        object_field(response.body, "version"@) == Some(info.version),
        object_field(response.body, "repository"@) == Some(info.repository),
{
    reveal_strlit("name");
    reveal_strlit("version");
    reveal_strlit("repository");
    let members = home_members(info);
    let two = members.drop_first();
    let one = two.drop_first();
    assert("name"@.len() == 4 && "version"@.len() == 7 && "repository"@.len() == 10);
    assert(member_value(one, "repository"@) == Some(info.repository));
    assert(member_value(two, "repository"@) == Some(info.repository));
    assert(member_value(two, "version"@) == Some(info.version));
}

/// A metadata input that is unset, or set to nothing, is answered as the
/// fallback `NULL` in its field.
pub proof fn lemma_unset_input_reads_fallback(
    name: Option<Seq<char>>,
    version: Option<Seq<char>>,
    repository: Option<Seq<char>>,
    response: ResponseView,
)
    requires
        is_home_response(provided(name, version, repository), response),
    ensures
        name is None || name == Some(Seq::<char>::empty()) ==> object_field(
            response.body,
            "name"@,
        ) == Some("NULL"@),
        version is None || version == Some(Seq::<char>::empty()) ==> object_field(
            response.body,
            "version"@,
        ) == Some("NULL"@),
        repository is None || repository == Some(Seq::<char>::empty()) ==> object_field(
            response.body,
            "repository"@,
        ) == Some("NULL"@),
{
    lemma_home_fields(provided(name, version, repository), response);
    lemma_fallback_text();
}

/// A metadata input that is set to a value that is not empty is answered as
/// that value in its field, with nothing trimmed and nothing changed.
pub proof fn lemma_set_input_reads_unchanged(
    name: Option<Seq<char>>,
    version: Option<Seq<char>>,
    repository: Option<Seq<char>>,
    response: ResponseView,
)
    requires
        is_home_response(provided(name, version, repository), response),
    ensures
        name matches Some(value) ==> (value.len() > 0 ==> object_field(response.body, "name"@)
            == Some(value)),
        version matches Some(value) ==> (value.len() > 0 ==> object_field(
            response.body,
            "version"@,
        ) == Some(value)),
        repository matches Some(value) ==> (value.len() > 0 ==> object_field(
            response.body,
            "repository"@,
        ) == Some(value)),
{
    lemma_home_fields(provided(name, version, repository), response);
}

} // verus!
