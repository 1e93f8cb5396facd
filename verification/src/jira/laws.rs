//! What holds of the requests to Jira, and of what is read from its replies.

use vstd::prelude::*;

use crate::atlassian::error::{AtlassianError, ErrorView};
use crate::atlassian::http;
use crate::atlassian::http::{ApiRequest, Method, RequestView};
use crate::jira::client;
use crate::jira::client::{
    FieldOptionsRequest, GetIssueRequest, JiraClient, SearchRequest,
};
use crate::jira::config::JiraDeployment;
use crate::jira::formatting;
use crate::jira::models;
use crate::jira::models::FieldView;
use crate::json::{Json, JsonView};
use crate::text;

verus! {

/// Whether a request goes to a path of the client's service, with its credentials.
pub open spec fn is_sent_to(
    made: RequestView,
    client: JiraClient,
    method: Method,
    path: Seq<char>,
) -> bool {
    &&& made.method == method
    &&& made.url == http::api_url(client@.http.base_url, path)
    &&& made.auth == client@.http.auth
}

/// Whether the URL of a path of the client's service can be made.
pub open spec fn can_be_sent_to(client: JiraClient, path: Seq<char>) -> bool {
    http::api_url_fits(client@.http.base_url, path)
}

/// The texts of a list, none where there is no list.
pub open spec fn texts_of(list: Option<Vec<String>>) -> Seq<Seq<char>> {
    match list {
        Some(list) => Seq::new(list@.len(), |i: int| list@[i]@),
        None => Seq::empty(),
    }
}

/// Whether a value is the array of these texts.
pub open spec fn is_text_list(value: Option<JsonView>, texts: Seq<Seq<char>>) -> bool {
    value matches Some(JsonView::Array(items)) && items.len() == texts.len() && forall|i: int|
        0 <= i < texts.len() ==> #[trigger] items[i] == JsonView::Text(texts[i])
}

/// Whether a value is an object with no member but the one under `key`.
pub open spec fn has_only(value: JsonView, key: Seq<char>) -> bool {
    value is Object && forall|other: Seq<char>| #[trigger]
        value.member(other) is Some ==> other == key
}

/// Whether a value says a text in the form that a service takes: on Cloud as a document of
/// one paragraph, on Server and Data Center as the text itself.
pub open spec fn says(value: JsonView, deployment: JiraDeployment, text: Seq<char>) -> bool {
    match deployment {
        JiraDeployment::Cloud => {
            &&& value.member("type"@) == Some(JsonView::Text("doc"@))
            &&& value.member("version"@) == Some(JsonView::Number("1"@))
            &&& value.member("content"@) matches Some(JsonView::Array(paragraphs))
            &&& paragraphs.len() == 1
            &&& paragraphs[0].member("type"@) == Some(JsonView::Text("paragraph"@))
            &&& paragraphs[0].member("content"@) matches Some(JsonView::Array(nodes))
            &&& nodes.len() == 1
            &&& nodes[0].member("type"@) == Some(JsonView::Text("text"@))
            &&& nodes[0].member("text"@) == Some(JsonView::Text(text))
            &&& forall|key: Seq<char>| #[trigger]
                value.member(key) is Some ==> key == "type"@ || key == "version"@ || key
                    == "content"@
        },
        JiraDeployment::ServerDataCenter => value == JsonView::Text(text),
    }
}

/// A text is written for a service in the form that it takes: a document for Cloud and the
/// text itself for Server and Data Center. Either form reads back as the text.
pub proof fn law_texts_are_written_for_the_service(deployment: JiraDeployment, text: Seq<char>)
    ensures
        says(formatting::comment_body(deployment, text), deployment, text),
        text::trimmed(formatting::adf_text(formatting::comment_body(deployment, text)))
            == text::trimmed(text),
{
    formatting::law_comment_body_reads_back(deployment, text);
    reveal_strlit("type");
    reveal_strlit("text");
    reveal_strlit("content");
    reveal_strlit("version");
    assert("type"@.len() == 4);
    assert("text"@.len() == 4);
    assert("content"@.len() == 7);
    assert("version"@.len() == 7);
    assert("type"@[1] != "text"@[1]);
    assert("content"@[0] != "version"@[0]);
}

/// A list with commas between its texts.
pub open spec fn comma_separated(texts: Seq<Seq<char>>) -> Seq<char> {
    text::joined(texts, seq![','])
}

proof fn lemma_texts_of(list: Option<Vec<String>>)
    ensures
        client::list_or_empty(list.deep_view()) == texts_of(list),
        client::comma_list(list.deep_view()) == (match list {
            Some(_) => Some(comma_separated(texts_of(list))),
            None => None,
        }),
        ","@ == seq![','],
{
    reveal_strlit(",");
    assert(","@ =~= seq![',']);
    assert(client::list_or_empty(list.deep_view()) =~= texts_of(list));
}

/// A search sends the fields that are asked for as fields and the expansions as
/// expansions, with the page and the limit that are asked for, and nothing else. On Server
/// and Data Center each is there; on Cloud only what was asked for, and a page is named by
/// its token.
pub proof fn law_search_sends_what_is_asked_for(
    client: JiraClient,
    request: SearchRequest,
    made: RequestView,
)
    requires
        client@.search_request(request@) == Ok::<RequestView, ErrorView>(made),
    ensures
        made.query.len() == 0,
        made.body matches Some(body) && {
            let limit = match request.limit {
                Some(limit) => limit,
                None => 50,
            };
            &&& body.member("maxResults"@) == Some(JsonView::Number(text::decimal(limit as nat)))
            &&& match client.config.deployment {
                JiraDeployment::ServerDataCenter => {
                    let start_at = match request.start_at {
                        Some(start_at) => start_at,
                        None => 0,
                    };
                    &&& is_sent_to(made, client, Method::Post, "/rest/api/2/search"@)
                    &&& is_text_list(body.member("fields"@), texts_of(request.fields))
                    &&& body.member("expand"@) == Some(
                        JsonView::Text(comma_separated(texts_of(request.expand))),
                    )
                    &&& body.member("startAt"@) == Some(
                        JsonView::Number(text::decimal(start_at as nat)),
                    )
                    &&& body.member("nextPageToken"@) is None
                },
                JiraDeployment::Cloud => {
                    &&& is_sent_to(made, client, Method::Post, "/rest/api/3/search/jql"@)
                    &&& match request.fields {
                        Some(_) => is_text_list(body.member("fields"@), texts_of(request.fields)),
                        None => body.member("fields"@) is None,
                    }
                    &&& body.member("expand"@) == (match request.expand {
                        Some(_) => Some(JsonView::Text(comma_separated(texts_of(request.expand)))),
                        None => None,
                    })
                    &&& body.member("nextPageToken"@) == (match request.page_token {
                        Some(token) => Some(JsonView::Text(token@)),
                        None => None,
                    })
                    &&& body.member("startAt"@) is None
                },
            }
            &&& forall|key: Seq<char>| #[trigger]
                body.member(key) is Some ==> key == "jql"@ || key == "maxResults"@ || key
                    == "startAt"@ || key == "fields"@ || key == "expand"@ || key
                    == "nextPageToken"@
        },
{
    reveal_strlit("jql");
    reveal_strlit("maxResults");
    reveal_strlit("startAt");
    reveal_strlit("fields");
    reveal_strlit("expand");
    reveal_strlit("nextPageToken");
    assert("jql"@.len() == 3);
    assert("maxResults"@.len() == 10);
    assert("startAt"@.len() == 7);
    assert("fields"@.len() == 6);
    assert("expand"@.len() == 6);
    assert("nextPageToken"@.len() == 13);
    assert("fields"@[0] != "expand"@[0]);
    lemma_texts_of(request.fields);
    lemma_texts_of(request.expand);
    assert(made.query =~= Seq::empty());
}

/// Which fields a search asks for does not depend on the expansions, nor the expansions on
/// the fields.
pub proof fn law_search_fields_and_expansions_are_apart(
    client: JiraClient,
    left: SearchRequest,
    right: SearchRequest,
    left_made: RequestView,
    right_made: RequestView,
)
    requires
        client@.search_request(left@) == Ok::<RequestView, ErrorView>(left_made),
        client@.search_request(right@) == Ok::<RequestView, ErrorView>(right_made),
    ensures
        left.fields == right.fields ==> left_made.body->0.member("fields"@)
            == right_made.body->0.member("fields"@),
        left.expand == right.expand ==> left_made.body->0.member("expand"@)
            == right_made.body->0.member("expand"@),
{
    law_search_sends_what_is_asked_for(client, left, left_made);
    law_search_sends_what_is_asked_for(client, right, right_made);
    if left.fields == right.fields {
        if let Some(JsonView::Array(items)) = left_made.body->0.member("fields"@) {
            let others = right_made.body->0.member("fields"@)->0->Array_0;
            assert(items =~= others);
        }
    }
}

/// A search is narrowed to the projects that are both configured and asked for, or to those
/// of the one that names any, and is refused where there is none in both.
pub proof fn law_search_projects_are_those_of_both(
    configured: Seq<Seq<char>>,
    requested: Option<Vec<String>>,
    project: Seq<char>,
)
    ensures
        ({
            let asked = texts_of(requested);
            let projects = client::search_projects(configured, requested.deep_view());
            &&& configured.len() == 0 ==> projects == Ok::<Seq<Seq<char>>, ErrorView>(asked)
            &&& asked.len() == 0 ==> projects == Ok::<Seq<Seq<char>>, ErrorView>(configured)
            &&& configured.contains(project) && asked.contains(project) ==> projects is Ok
            &&& configured.len() > 0 && asked.len() > 0 ==> {
                &&& projects matches Ok(projects) ==> {
                    &&& projects.contains(project) == (configured.contains(project)
                        && asked.contains(project))
                    &&& projects.len() > 0
                }
                &&& projects matches Err(error) ==> error is InvalidInput
            }
        }),
{
    let asked = client::list_or_empty(requested.deep_view());
    lemma_texts_of(requested);
    let kept = |project: Seq<char>| asked.contains(project);
    let both = configured.filter(kept);
    if configured.len() == 0 && asked.len() == 0 {
        assert(configured =~= asked);
    }
    if configured.contains(project) && asked.contains(project) {
        let i = choose|i: int| 0 <= i < configured.len() && configured[i] == project;
        configured.lemma_filter_contains(kept, i);
        assert(both.len() > 0);
    }
    if both.contains(project) {
        let i = choose|i: int| 0 <= i < both.len() && both[i] == project;
        configured.lemma_filter_pred(kept, i);
        configured.lemma_filter_contains_rev(kept, project);
    }
}

/// A search sends its query, narrowed to its projects; it is made wherever there are such
/// projects and its URL can be made.
pub proof fn law_search_sends_the_narrowed_query(client: JiraClient, request: SearchRequest)
    ensures
        match client::search_projects(
            client.config.projects_filter@,
            request.projects_filter.deep_view(),
        ) {
            Ok(projects) => match client@.search_request(request@) {
                Ok(made) => made.body matches Some(body) && body.member("jql"@) == Some(
                    JsonView::Text(formatting::narrowed_jql(request.jql@, projects)),
                ),
                Err(error) => error is Transport && !can_be_sent_to(
                    client,
                    match client.config.deployment {
                        JiraDeployment::Cloud => "/rest/api/3/search/jql"@,
                        JiraDeployment::ServerDataCenter => "/rest/api/2/search"@,
                    },
                ),
            },
            Err(error) => client@.search_request(request@) == Err::<RequestView, ErrorView>(error),
        },
{
    reveal_strlit("jql");
    reveal_strlit("maxResults");
    reveal_strlit("startAt");
    reveal_strlit("fields");
    reveal_strlit("expand");
    reveal_strlit("nextPageToken");
    assert("jql"@.len() == 3);
    assert("maxResults"@.len() == 10);
    assert("startAt"@.len() == 7);
    assert("fields"@.len() == 6);
    assert("expand"@.len() == 6);
    assert("nextPageToken"@.len() == 13);
    assert("fields"@[0] != "expand"@[0]);
}

/// Without a project a query stays as it is. Otherwise the clause of the projects stands
/// before it, or in its place where it is blank. The clause names one project by `=` and
/// more by `in`, each as a JQL string, and grows at its end with each project.
pub proof fn law_narrowed_jql_names_the_projects(
    jql: Seq<char>,
    projects: Seq<Seq<char>>,
    first: Seq<char>,
    second: Seq<char>,
)
    ensures
        formatting::narrowed_jql(jql, Seq::empty()) == jql,
        projects.len() > 0 && text::trimmed(jql).len() == 0 ==> formatting::narrowed_jql(
            jql,
            projects,
        ) == formatting::narrowed_jql(Seq::empty(), projects),
        projects.len() > 0 && text::trimmed(jql).len() > 0 ==> formatting::narrowed_jql(
            jql,
            projects,
        ) == seq!['('] + formatting::narrowed_jql(Seq::empty(), projects) + ") AND ("@ + jql
            + seq![')'],
        formatting::narrowed_jql(Seq::empty(), seq![first]) == "project = "@ + seq!['"']
            + formatting::jql_escaped(first) + seq!['"'],
        formatting::narrowed_jql(Seq::empty(), seq![first, second]) == "project in ("@ + seq!['"']
            + formatting::jql_escaped(first) + seq!['"', ',', ' ', '"'] + formatting::jql_escaped(
            second,
        ) + seq!['"', ')'],
        projects.len() >= 2 ==> formatting::narrowed_jql(Seq::empty(), projects.push(first))
            == formatting::narrowed_jql(Seq::empty(), projects).drop_last() + seq![',', ' ', '"']
            + formatting::jql_escaped(first) + seq!['"', ')'],
{
    reveal_strlit("(");
    reveal_strlit(")");
    reveal_strlit("\"");
    reveal_strlit(", ");
    let nothing = Seq::<char>::empty();
    assert(text::trim_start(nothing, |c: char| text::is_whitespace(c)) =~= nothing);
    assert(text::trimmed(nothing).len() == 0);
    let quoted = |project: Seq<char>| formatting::jql_quoted(project);
    assert("\""@ =~= seq!['"']);
    assert(formatting::narrowed_jql(nothing, seq![first]) =~= "project = "@ + seq!['"']
        + formatting::jql_escaped(first) + seq!['"']);
    let two = seq![first, second].map_values(quoted);
    assert(two.drop_last() =~= seq![formatting::jql_quoted(first)]);
    assert(text::joined(two.drop_last(), ", "@) == formatting::jql_quoted(first));
    assert(text::joined(two, ", "@) == formatting::jql_quoted(first) + ", "@
        + formatting::jql_quoted(second));
    assert(formatting::narrowed_jql(nothing, seq![first, second]) =~= "project in ("@ + seq!['"']
        + formatting::jql_escaped(first) + seq!['"', ',', ' ', '"'] + formatting::jql_escaped(
        second,
    ) + seq!['"', ')']);
    if projects.len() > 0 && text::trimmed(jql).len() > 0 {
        assert(formatting::narrowed_jql(jql, projects) =~= seq!['('] + formatting::narrowed_jql(
            nothing,
            projects,
        ) + ") AND ("@ + jql + seq![')']);
    }
    if projects.len() >= 2 {
        let all = projects.push(first).map_values(quoted);
        assert(all.drop_last() =~= projects.map_values(quoted));
        assert(text::joined(all, ", "@) == text::joined(projects.map_values(quoted), ", "@) + ", "@
            + formatting::jql_quoted(first));
        let before = formatting::narrowed_jql(nothing, projects);
        assert(before.drop_last() =~= "project in ("@ + text::joined(
            projects.map_values(quoted),
            ", "@,
        ));
        assert(formatting::narrowed_jql(nothing, projects.push(first)) =~= before.drop_last()
            + seq![',', ' ', '"'] + formatting::jql_escaped(first) + seq!['"', ')']);
    }
}

/// Whether the filter of a client leaves an issue in bounds: it is empty, or it names what
/// stands before the first hyphen of the issue's key.
pub open spec fn is_in_bounds(client: JiraClient, issue_key: Seq<char>) -> bool {
    client.config.projects_filter@.len() == 0 || exists|i: int|
        {
            &&& 0 <= i < issue_key.len()
            &&& issue_key[i] == '-'
            &&& forall|k: int| 0 <= k < i ==> issue_key[k] != '-'
            &&& client.config.projects_filter@.contains(#[trigger] issue_key.take(i))
        }
}

/// Whether a text, without the white space around it, can stand as one segment of a path.
pub open spec fn is_segment(text: Seq<char>) -> bool {
    let inner = text::trimmed(text);
    inner.len() > 0 && forall|i: int|
        0 <= i < inner.len() ==> (#[trigger] inner[i]) != '/' && inner[i] != '?' && inner[i] != '#'
}

/// The object that an argument gives, as itself or as JSON text.
pub open spec fn given_object(value: JsonView) -> Option<JsonView> {
    match value {
        JsonView::Object(_) => Some(value),
        JsonView::Text(raw) => match crate::json_codec::parsed_json(raw) {
            Some(JsonView::Object(members)) => Some(JsonView::Object(members)),
            _ => None,
        },
        _ => None,
    }
}

/// Whether an argument is left out or gives an object.
pub open spec fn is_object_or_absent(value: Option<JsonView>) -> bool {
    value matches Some(value) ==> given_object(value) is Some
}

/// The object that an argument gives, where it is not left out.
pub open spec fn optional_object(value: Option<JsonView>) -> Option<JsonView> {
    match value {
        Some(value) => given_object(value),
        None => None,
    }
}

proof fn lemma_issue_segment(client: JiraClient, issue_key: Seq<char>)
    ensures
        client@.issue_segment(issue_key) == (if is_in_bounds(client, issue_key) && is_segment(
            issue_key,
        ) {
            Ok(text::trimmed(issue_key))
        } else {
            Err(client@.issue_segment(issue_key)->Err_0)
        }),
        client@.issue_segment(issue_key) matches Err(error) ==> error is InvalidInput,
{
    lemma_segment(issue_key, "issue_key"@);
    let filter = client.config.projects_filter@;
    let i = first_hyphen(issue_key, 0);
    lemma_first_hyphen(issue_key, 0);
    text::lemma_before_first(issue_key, '-', i);
    if filter.len() > 0 {
        if i < issue_key.len() && filter.contains(issue_key.take(i)) {
            assert(is_in_bounds(client, issue_key));
        }
        if is_in_bounds(client, issue_key) {
            let k = choose|k: int|
                {
                    &&& 0 <= k < issue_key.len()
                    &&& issue_key[k] == '-'
                    &&& forall|j: int| 0 <= j < k ==> issue_key[j] != '-'
                    &&& filter.contains(#[trigger] issue_key.take(k))
                };
            assert(k == i);
        }
    }
}

spec fn first_hyphen(s: Seq<char>, from: int) -> int
    decreases s.len() - from,
{
    if from >= s.len() || s[from] == '-' {
        from
    } else {
        first_hyphen(s, from + 1)
    }
}

proof fn lemma_first_hyphen(s: Seq<char>, from: int)
    requires
        0 <= from <= s.len(),
    ensures
        from <= first_hyphen(s, from) <= s.len(),
        forall|k: int| from <= k < first_hyphen(s, from) ==> s[k] != '-',
        first_hyphen(s, from) < s.len() ==> s[first_hyphen(s, from)] == '-',
    decreases s.len() - from,
{
    if from < s.len() && s[from] != '-' {
        lemma_first_hyphen(s, from + 1);
    }
}

proof fn lemma_segment(segment: Seq<char>, name: Seq<char>)
    ensures
        formatting::path_segment(segment, name) == (if is_segment(segment) {
            Ok(text::trimmed(segment))
        } else {
            Err(formatting::path_segment(segment, name)->Err_0)
        }),
        formatting::path_segment(segment, name) matches Err(error) ==> error is InvalidInput,
{
    let inner = text::trimmed(segment);
    if formatting::is_path_segment(inner) {
        assert forall|i: int| 0 <= i < inner.len() implies (#[trigger] inner[i]) != '/' && inner[i]
            != '?' && inner[i] != '#' by {
            assert(inner.contains(inner[i]));
        }
    }
}

/// A request is made for an issue exactly where the filter of the client leaves it in
/// bounds, its key can stand in a path and what else is given is what it must be; otherwise
/// the input is refused. A URL too long to be made does not go through.
pub proof fn law_requests_are_made_for_issues_in_bounds(
    client: JiraClient,
    request: GetIssueRequest,
    comment_id: Seq<char>,
    transition_id: Seq<char>,
    body: Seq<char>,
    object: Option<JsonView>,
    comment: Option<Seq<char>>,
)
    ensures
        ({
            let issue_key = request.issue_key@;
            let named = is_in_bounds(client, issue_key) && is_segment(issue_key);
            let read = client@.get_issue_request(request@);
            let listed = client@.transitions_request(issue_key);
            let added = client@.add_comment_request(issue_key, body, object);
            let edited = client@.edit_comment_request(issue_key, comment_id, body, object);
            let moved = client@.transition_request(issue_key, transition_id, object, comment);
            &&& (read is Ok || read->Err_0 is Transport) == named
            &&& (listed is Ok || listed->Err_0 is Transport) == named
            &&& (added is Ok || added->Err_0 is Transport) == (named && is_object_or_absent(
                object,
            ))
            &&& (edited is Ok || edited->Err_0 is Transport) == (named && is_segment(comment_id)
                && is_object_or_absent(object))
            &&& (moved is Ok || moved->Err_0 is Transport) == (named && is_segment(transition_id)
                && is_object_or_absent(object))
            &&& read matches Err(error) ==> error is InvalidInput || error is Transport
            &&& listed matches Err(error) ==> error is InvalidInput || error is Transport
            &&& added matches Err(error) ==> error is InvalidInput || error is Transport
            &&& edited matches Err(error) ==> error is InvalidInput || error is Transport
            &&& moved matches Err(error) ==> error is InvalidInput || error is Transport
        }),
{
    lemma_issue_segment(client, request.issue_key@);
    lemma_segment(comment_id, "comment_id"@);
    lemma_segment(transition_id, "transition_id"@);
}

/// A request is made wherever its URL can be.
pub proof fn law_requests_are_made_where_they_fit(
    client: JiraClient,
    method: Method,
    path: Seq<char>,
    body: Option<JsonView>,
)
    ensures
        match client@.http.request_to(method, path, body) {
            Ok(made) => can_be_sent_to(client, path) && is_sent_to(made, client, method, path)
                && made.body == body && made.query.len() == 0,
            Err(error) => !can_be_sent_to(client, path) && error is Transport,
        },
{
}

/// A client speaks to the service that is configured, with its credentials and settings.
pub proof fn law_clients_speak_to_the_configured_service(config: crate::jira::config::JiraConfig)
    ensures
        match client::client_of(config@) {
            Ok(client) => {
                &&& client.config == config@
                &&& client.http.base_url == config.base_url@
                &&& client.http.auth == config.auth@
                &&& client.http.timeout_seconds == config.timeout_seconds
                &&& client.http.ssl_verify == config.ssl_verify
                &&& crate::atlassian::url::parsed_url(config.base_url@) is Ok
            },
            Err(error) => error is InvalidBaseUrl && crate::atlassian::url::parsed_url(
                config.base_url@,
            ) is Err,
        },
{
}

/// An issue is read at its own path, with a parameter for each thing that is asked for:
/// what was not said is not sent.
pub proof fn law_issues_are_read_as_asked_for(
    client: JiraClient,
    request: GetIssueRequest,
    made: RequestView,
    name: Seq<char>,
    value: Seq<char>,
)
    requires
        client@.get_issue_request(request@) == Ok::<RequestView, ErrorView>(made),
    ensures
        is_sent_to(
            made,
            client,
            Method::Get,
            "/rest/api/2/issue/"@ + text::trimmed(request.issue_key@),
        ),
        made.body is None,
        made.query.contains((name, value)) == {
            ||| name == "fields"@ && request.fields is Some && value == comma_separated(
                texts_of(request.fields),
            )
            ||| name == "expand"@ && request.expand is Some && value == comma_separated(
                texts_of(request.expand),
            )
            ||| name == "properties"@ && request.properties is Some && value == comma_separated(
                texts_of(request.properties),
            )
            ||| name == "updateHistory"@ && request.update_history == Some(true) && value
                == "true"@
            ||| name == "updateHistory"@ && request.update_history == Some(false) && value
                == "false"@
            ||| name == "commentLimit"@ && (request.comment_limit matches Some(limit) && value
                == text::decimal(limit as nat))
        },
        made.query.len() == (if request.fields is Some {
            1int
        } else {
            0
        }) + (if request.expand is Some {
            1int
        } else {
            0
        }) + (if request.properties is Some {
            1int
        } else {
            0
        }) + (if request.update_history is Some {
            1int
        } else {
            0
        }) + (if request.comment_limit is Some {
            1int
        } else {
            0
        }),
{
    lemma_issue_segment(client, request.issue_key@);
    lemma_texts_of(request.fields);
    lemma_texts_of(request.expand);
    lemma_texts_of(request.properties);
    let fields = ("fields"@, client::comma_list(request.fields.deep_view()));
    let expand = ("expand"@, client::comma_list(request.expand.deep_view()));
    let properties = ("properties"@, client::comma_list(request.properties.deep_view()));
    let history = ("updateHistory"@, client::written_bool(request.update_history));
    let limit = ("commentLimit"@, client::written_number(request.comment_limit));
    let none = Seq::<(Seq<char>, Option<Seq<char>>)>::empty();
    assert(seq![fields, expand, properties, history, limit] =~= none.push(fields).push(expand).push(
        properties,
    ).push(history).push(limit));
    lemma_param(none, fields, (name, value));
    lemma_param(none.push(fields), expand, (name, value));
    lemma_param(none.push(fields).push(expand), properties, (name, value));
    lemma_param(none.push(fields).push(expand).push(properties), history, (name, value));
    lemma_param(
        none.push(fields).push(expand).push(properties).push(history),
        limit,
        (name, value),
    );
    assert(client::present_params(none) =~= Seq::empty());
}

/// The parameters of a query are those that have a value, in the order that they are given
/// in: one more parameter comes last where it has a value, and changes nothing where not.
pub proof fn law_parameters_with_a_value_are_sent(
    pairs: Seq<(Seq<char>, Option<Seq<char>>)>,
    name: Seq<char>,
    value: Seq<char>,
)
    ensures
        client::present_params(Seq::empty()) == Seq::<(Seq<char>, Seq<char>)>::empty(),
        client::present_params(pairs.push((name, Some(value)))) == client::present_params(
            pairs,
        ).push((name, value)),
        client::present_params(pairs.push((name, None))) == client::present_params(pairs),
{
    assert(pairs.push((name, Some(value))).drop_last() =~= pairs);
    assert(pairs.push((name, None::<Seq<char>>)).drop_last() =~= pairs);
}

/// A parameter is among those that are sent where it has a value.
pub proof fn lemma_param(
    pairs: Seq<(Seq<char>, Option<Seq<char>>)>,
    pair: (Seq<char>, Option<Seq<char>>),
    wanted: (Seq<char>, Seq<char>),
)
    ensures
        client::present_params(pairs.push(pair)).len() == client::present_params(pairs).len() + (
        if pair.1 is Some {
            1int
        } else {
            0
        }),
        client::present_params(pairs.push(pair)).contains(wanted) == (client::present_params(
            pairs,
        ).contains(wanted) || (pair.1 == Some(wanted.1) && pair.0 == wanted.0)),
{
    assert(pairs.push(pair).drop_last() =~= pairs);
    let before = client::present_params(pairs);
    let after = client::present_params(pairs.push(pair));
    if let Some(value) = pair.1 {
        assert(after == before.push((pair.0, value)));
        if before.contains(wanted) {
            let i = choose|i: int| 0 <= i < before.len() && before[i] == wanted;
            assert(after[i] == wanted);
        }
        if pair == (wanted.0, Some(wanted.1)) {
            assert(after[before.len() as int] == wanted);
        }
        if after.contains(wanted) {
            let i = choose|i: int| 0 <= i < after.len() && after[i] == wanted;
            if i < before.len() {
                assert(before[i] == wanted);
            }
        }
    }
}

/// Whether what is sent is a comment of this text, seen by those that `visibility` names.
pub open spec fn is_comment(
    sent: Option<JsonView>,
    deployment: JiraDeployment,
    text: Seq<char>,
    visibility: Option<JsonView>,
) -> bool {
    &&& sent matches Some(sent)
    &&& sent.member("body"@) matches Some(body)
    &&& says(body, deployment, text)
    &&& sent.member("visibility"@) == optional_object(visibility)
    &&& forall|key: Seq<char>| #[trigger]
        sent.member(key) is Some ==> key == "body"@ || key == "visibility"@
}

/// The path of the comments of an issue.
pub open spec fn comments_of(deployment: JiraDeployment, issue_key: Seq<char>) -> Seq<char> {
    match deployment {
        JiraDeployment::Cloud => "/rest/api/3/issue/"@ + text::trimmed(issue_key) + "/comment"@,
        JiraDeployment::ServerDataCenter => "/rest/api/2/issue/"@ + text::trimmed(issue_key)
            + "/comment"@,
    }
}

/// A comment is posted under its issue and an edited one put in its own place there. Both
/// are sent in the form that the service takes, so that to edit a comment sends the same as
/// to add it.
pub proof fn law_comments_are_sent_in_the_form_of_the_service(
    client: JiraClient,
    issue_key: Seq<char>,
    comment_id: Seq<char>,
    text: Seq<char>,
    visibility: Option<JsonView>,
)
    ensures
        ({
            let deployment = client.config.deployment;
            let added = client@.add_comment_request(issue_key, text, visibility);
            let edited = client@.edit_comment_request(issue_key, comment_id, text, visibility);
            &&& added matches Ok(made) ==> {
                &&& is_sent_to(made, client, Method::Post, comments_of(deployment, issue_key))
                &&& made.query.len() == 0
                &&& is_comment(made.body, deployment, text, visibility)
            }
            &&& edited matches Ok(made) ==> {
                &&& is_sent_to(
                    made,
                    client,
                    Method::Put,
                    comments_of(deployment, issue_key) + seq!['/'] + text::trimmed(comment_id),
                )
                &&& made.query.len() == 0
                &&& is_comment(made.body, deployment, text, visibility)
            }
            &&& added is Ok && edited is Ok ==> added->Ok_0.body == edited->Ok_0.body
        }),
{
    lemma_issue_segment(client, issue_key);
    lemma_segment(comment_id, "comment_id"@);
    law_texts_are_written_for_the_service(client.config.deployment, text);
    reveal_strlit("/");
    assert("/"@ =~= seq!['/']);
    reveal_strlit("body");
    reveal_strlit("visibility");
    assert("body"@.len() == 4);
    assert("visibility"@.len() == 10);
}

/// Whether what is under `update` adds one comment of this text.
pub open spec fn adds_comment(
    update: Option<JsonView>,
    deployment: JiraDeployment,
    text: Seq<char>,
) -> bool {
    &&& update matches Some(update)
    &&& update.member("comment"@) matches Some(JsonView::Array(changes))
    &&& changes.len() == 1
    &&& changes[0].member("add"@) matches Some(added)
    &&& added.member("body"@) matches Some(body)
    &&& says(body, deployment, text)
    &&& has_only(update, "comment"@)
    &&& has_only(changes[0], "add"@)
    &&& has_only(added, "body"@)
}

/// A transition is posted under its issue with its id, the fields that are given and the
/// comment that is given, each whatever the other is; what is not given is not sent.
pub proof fn law_transitions_are_sent_with_fields_and_comment(
    client: JiraClient,
    issue_key: Seq<char>,
    transition_id: Seq<char>,
    fields: Option<JsonView>,
    comment: Option<Seq<char>>,
    made: RequestView,
)
    requires
        client@.transition_request(issue_key, transition_id, fields, comment) == Ok::<
            RequestView,
            ErrorView,
        >(made),
    ensures
        is_sent_to(
            made,
            client,
            Method::Post,
            "/rest/api/2/issue/"@ + text::trimmed(issue_key) + "/transitions"@,
        ),
        made.query.len() == 0,
        made.body matches Some(sent) && {
            &&& sent.member("transition"@) matches Some(transition)
            &&& transition.member("id"@) == Some(JsonView::Text(text::trimmed(transition_id)))
            &&& has_only(transition, "id"@)
            &&& sent.member("fields"@) == optional_object(fields)
            &&& match comment {
                Some(text) => adds_comment(
                    sent.member("update"@),
                    client.config.deployment,
                    text,
                ),
                None => sent.member("update"@) is None,
            }
            &&& forall|key: Seq<char>| #[trigger]
                sent.member(key) is Some ==> key == "transition"@ || key == "fields"@ || key
                    == "update"@
        },
{
    lemma_issue_segment(client, issue_key);
    lemma_segment(transition_id, "transition_id"@);
    if let Some(text) = comment {
        law_texts_are_written_for_the_service(client.config.deployment, text);
    }
    reveal_strlit("transition");
    reveal_strlit("id");
    reveal_strlit("fields");
    reveal_strlit("update");
    reveal_strlit("comment");
    reveal_strlit("add");
    reveal_strlit("body");
    assert("transition"@.len() == 10);
    assert("id"@.len() == 2);
    assert("fields"@.len() == 6);
    assert("update"@.len() == 6);
    assert("comment"@.len() == 7);
    assert("add"@.len() == 3);
    assert("body"@.len() == 4);
    assert("fields"@[0] != "update"@[0]);
}

/// The comment of a transition does not depend on its fields, nor the fields on the
/// comment.
pub proof fn law_transition_fields_and_comment_are_apart(
    client: JiraClient,
    issue_key: Seq<char>,
    transition_id: Seq<char>,
    fields: Option<JsonView>,
    other_fields: Option<JsonView>,
    comment: Option<Seq<char>>,
    other_comment: Option<Seq<char>>,
)
    ensures
        ({
            let one = client@.transition_request(issue_key, transition_id, fields, comment);
            let other = client@.transition_request(
                issue_key,
                transition_id,
                other_fields,
                other_comment,
            );
            one is Ok && other is Ok ==> {
                let one = one->Ok_0.body->0;
                let other = other->Ok_0.body->0;
                &&& comment == other_comment ==> one.member("update"@) == other.member("update"@)
                &&& fields == other_fields ==> one.member("fields"@) == other.member("fields"@)
                &&& one.member("transition"@) == other.member("transition"@)
            }
        }),
{
    reveal_strlit("transition");
    reveal_strlit("id");
    reveal_strlit("fields");
    reveal_strlit("update");
    reveal_strlit("comment");
    reveal_strlit("add");
    reveal_strlit("body");
    assert("transition"@.len() == 10);
    assert("id"@.len() == 2);
    assert("fields"@.len() == 6);
    assert("update"@.len() == 6);
    assert("comment"@.len() == 7);
    assert("add"@.len() == 3);
    assert("body"@.len() == 4);
    assert("fields"@[0] != "update"@[0]);
}

/// The transitions of an issue are read at the path that they are posted to.
pub proof fn law_transitions_are_listed_where_they_are_posted(
    client: JiraClient,
    issue_key: Seq<char>,
    made: RequestView,
)
    requires
        client@.transitions_request(issue_key) == Ok::<RequestView, ErrorView>(made),
    ensures
        is_sent_to(
            made,
            client,
            Method::Get,
            "/rest/api/2/issue/"@ + text::trimmed(issue_key) + "/transitions"@,
        ),
        made.query.len() == 0,
        made.body is None,
{
    lemma_issue_segment(client, issue_key);
}

/// The issues of a project are those of the search for its key, with the page and the limit
/// that are asked for and nothing else.
pub proof fn law_project_issues_are_searched_by_the_key(
    client: JiraClient,
    project_key: Seq<char>,
    request: SearchRequest,
)
    requires
        request.jql@ == "project = "@ + seq!['"'] + text::replaced(
            text::trimmed(project_key),
            '"',
            seq!['\\', '"'],
        ) + seq!['"'],
        request.fields is None,
        request.projects_filter is None,
        request.expand is None,
        request.page_token is None,
    ensures
        is_segment(project_key) ==> client@.project_issues_request(
            project_key,
            request.limit,
            request.start_at,
        ) == client@.search_request(request@),
        !is_segment(project_key) ==> (client@.project_issues_request(
            project_key,
            request.limit,
            request.start_at,
        ) matches Err(error) && error is InvalidInput),
{
    lemma_segment(project_key, "project_key"@);
    reveal_strlit("project = \"");
    reveal_strlit("project = ");
    reveal_strlit("\"");
    reveal_strlit("\\\"");
    assert("\\\""@ =~= seq!['\\', '"']);
    assert("project = \""@ =~= "project = "@ + seq!['"']);
    if is_segment(project_key) {
        let key = text::trimmed(project_key);
        assert(client::project_jql(key) =~= request.jql@);
        assert(request@ == client::SearchView {
            limit: request.limit,
            start_at: request.start_at,
            ..client::plain_search(client::project_jql(key))
        });
    }
}

/// Whether a text holds another, whatever the case of their ASCII letters.
pub open spec fn holds_ignoring_case(text: Seq<char>, wanted: Seq<char>) -> bool {
    text::contains_text(text::lowercase_ascii(text), text::lowercase_ascii(wanted))
}

/// Whether the member of a value under `key` is a text that holds another.
pub open spec fn member_holds(value: JsonView, key: Seq<char>, wanted: Seq<char>) -> bool {
    value.member(key) matches Some(JsonView::Text(text)) && holds_ignoring_case(text, wanted)
}

/// Whether a value has a text under `key`.
pub open spec fn has_text(value: JsonView, key: Seq<char>) -> bool {
    value.member(key) matches Some(JsonView::Text(_))
}

/// Whether a reported field is one that a keyword searches for: its id, its name or its key
/// holds the keyword. Without a keyword every field is.
pub open spec fn is_wanted_field(field: JsonView, keyword: Option<Seq<char>>) -> bool {
    keyword matches Some(keyword) ==> {
        ||| member_holds(field, "id"@, keyword)
        ||| member_holds(field, "name"@, keyword)
        ||| member_holds(field, "key"@, keyword)
    }
}

/// The limit that is asked for, or fifty.
pub open spec fn limit_of(limit: Option<u64>) -> int {
    match limit {
        Some(limit) => limit as int,
        None => 50,
    }
}

/// What a search for fields gives back of a reply.
pub open spec fn fields_found(
    reply: JsonView,
    keyword: Option<Seq<char>>,
    limit: Option<u64>,
) -> Result<Seq<JsonView>, ErrorView> {
    match models::fields_of(reply) {
        Ok(fields) => Ok(
            models::simplified_fields(
                client::matching_fields(fields, keyword, limit),
            )->Array_0,
        ),
        Err(error) => Err(error),
    }
}

/// The fields found are the wanted ones among those reported, as they were reported and in
/// their order, up to the limit.
pub proof fn law_field_search_keeps_the_order(
    reply: Seq<JsonView>,
    keyword: Option<Seq<char>>,
    limit: Option<u64>,
)
    requires
        models::fields_of(JsonView::Array(reply)) is Ok,
    ensures
        fields_found(JsonView::Array(reply), keyword, limit)->Ok_0 == ({
            let wanted = reply.filter(|field: JsonView| is_wanted_field(field, keyword));
            if wanted.len() <= limit_of(limit) {
                wanted
            } else {
                wanted.take(limit_of(limit))
            }
        }),
{
    let fields = models::fields_of(JsonView::Array(reply))->Ok_0;
    let kept = |field: FieldView| client::field_matches(field, keyword);
    let wanted = |field: JsonView| is_wanted_field(field, keyword);
    let raw = |field: FieldView| field.raw;
    assert forall|i: int| 0 <= i < reply.len() implies kept(fields[i]) == wanted(
        #[trigger] reply[i],
    ) && fields[i].raw == reply[i] by {
        assert(models::is_field(reply[i]));
    }
    lemma_filter_mapped(fields, reply, kept, wanted, raw);
    let found = fields.filter(kept);
    let limit = client::limit_or_default(limit);
    if found.len() > limit {
        assert(found.take(limit as int).map_values(raw) =~= found.map_values(raw).take(
            limit as int,
        ));
    }
}

/// To filter items and then to map them is to filter what they are mapped to, where the
/// filters agree.
proof fn lemma_filter_mapped<T>(
    items: Seq<T>,
    images: Seq<JsonView>,
    kept: spec_fn(T) -> bool,
    wanted: spec_fn(JsonView) -> bool,
    image: spec_fn(T) -> JsonView,
)
    requires
        items.len() == images.len(),
        forall|i: int|
            0 <= i < images.len() ==> kept(items[i]) == wanted(#[trigger] images[i]) && image(
                items[i],
            ) == images[i],
    ensures
        items.filter(kept).map_values(image) == images.filter(wanted),
    decreases items.len(),
{
    reveal(Seq::filter);
    if items.len() > 0 {
        let i = items.len() - 1;
        assert(images[i] == images.last());
        assert forall|k: int| 0 <= k < images.drop_last().len() implies kept(items.drop_last()[k])
            == wanted(#[trigger] images.drop_last()[k]) && image(items.drop_last()[k])
            == images.drop_last()[k] by {
            assert(images[k] == images.drop_last()[k]);
        }
        lemma_filter_mapped(items.drop_last(), images.drop_last(), kept, wanted, image);
        assert(items.filter(kept).map_values(image) =~= images.filter(wanted));
    } else {
        assert(items.filter(kept).map_values(image) =~= images.filter(wanted));
    }
}

/// The filter of a sequence holds exactly those of its items that the filter keeps.
pub proof fn lemma_filter_holds<T>(items: Seq<T>, kept: spec_fn(T) -> bool, item: T)
    ensures
        items.filter(kept).contains(item) == (items.contains(item) && kept(item)),
{
    if items.contains(item) && kept(item) {
        let i = choose|i: int| 0 <= i < items.len() && items[i] == item;
        items.lemma_filter_contains(kept, i);
    }
    if items.filter(kept).contains(item) {
        let i = choose|i: int| 0 <= i < items.filter(kept).len() && items.filter(kept)[i] == item;
        items.lemma_filter_pred(kept, i);
        items.lemma_filter_contains_rev(kept, item);
    }
}

/// A search for fields misses none: a reported field whose id, name or key holds the
/// keyword, whatever the case of letters, is among those found where the limit is not
/// reached, and in particular a field is found by its own id. What is found was reported
/// and is wanted, and is no more than the limit. A reply must be a list of fields, each
/// with an id and a name.
pub proof fn law_field_search_finds_what_is_wanted(
    reply: JsonView,
    keyword: Option<Seq<char>>,
    limit: Option<u64>,
    field: JsonView,
)
    ensures
        (fields_found(reply, keyword, limit) is Ok) == (reply matches JsonView::Array(reported)
            && forall|i: int|
            0 <= i < reported.len() ==> has_text(#[trigger] reported[i], "id"@) && has_text(
                reported[i],
                "name"@,
            )),
        fields_found(reply, keyword, limit) matches Err(error) ==> error is JsonDecode,
        fields_found(reply, keyword, limit) matches Ok(found) ==> {
            let reported = reply->Array_0;
            &&& found.len() <= limit_of(limit)
            &&& found.contains(field) ==> reported.contains(field) && is_wanted_field(
                field,
                keyword,
            )
            &&& reported.contains(field) && is_wanted_field(field, keyword) && found.len()
                < limit_of(limit) ==> found.contains(field)
            &&& reported.contains(field) && keyword is None && found.len() < limit_of(limit)
                ==> found.contains(field)
            &&& reported.contains(field) && keyword is Some && field.member("id"@) == Some(
                JsonView::Text(keyword->0),
            ) && found.len() < limit_of(limit) ==> found.contains(field)
        },
{
    if let JsonView::Array(reported) = reply {
        let well_made = forall|i: int|
            0 <= i < reported.len() ==> has_text(#[trigger] reported[i], "id"@) && has_text(
                reported[i],
                "name"@,
            );
        if models::fields_of(reply) is Ok {
            assert forall|i: int| 0 <= i < reported.len() implies has_text(
                #[trigger] reported[i],
                "id"@,
            ) && has_text(reported[i], "name"@) by {
                assert(models::is_field(reported[i]));
            }
            law_field_search_keeps_the_order(reported, keyword, limit);
            let wanted = |field: JsonView| is_wanted_field(field, keyword);
            lemma_filter_holds(reported, wanted, field);
            let all = reported.filter(wanted);
            let found = fields_found(reply, keyword, limit)->Ok_0;
            if found.contains(field) {
                let i = choose|i: int| 0 <= i < found.len() && found[i] == field;
                assert(all[i] == field);
            }
            if let Some(keyword) = keyword {
                if field.member("id"@) == Some(JsonView::Text(keyword)) {
                    text::law_text_holds_itself(text::lowercase_ascii(keyword));
                }
            }
        } else if well_made {
            assert forall|i: int| 0 <= i < reported.len() implies models::is_field(
                #[trigger] reported[i],
            ) by {}
        }
    }
}

/// What an option is called: its value or, where that is no text, its name.
pub open spec fn name_of_option(option: JsonView) -> Option<Seq<char>> {
    if has_text(option, "value"@) {
        Some(option.member("value"@)->0->Text_0)
    } else if has_text(option, "name"@) {
        Some(option.member("name"@)->0->Text_0)
    } else {
        None
    }
}

/// Whether an option is one that is asked for: what it is called holds a text. Where no
/// text is given every option is.
pub open spec fn is_wanted_option(option: JsonView, wanted: Option<String>) -> bool {
    wanted matches Some(wanted) ==> (name_of_option(option) matches Some(name)
        && holds_ignoring_case(name, wanted@))
}

/// What the listing of options gives back of a reply.
pub open spec fn options_found(
    client: JiraClient,
    request: FieldOptionsRequest,
    reply: JsonView,
) -> Result<JsonView, ErrorView> {
    match client@.field_options_of(request@, reply) {
        Ok(options) => Ok(
            models::simplified_options(
                client::matching_options(
                    options,
                    request.contains.deep_view(),
                    request.return_limit,
                ),
                request.values_only,
            ),
        ),
        Err(error) => Err(error),
    }
}

/// The options given back are the wanted ones among those listed, in their order and up to
/// the limit; or only what they are called, one after the other.
pub proof fn law_option_listing_keeps_the_order(
    client: JiraClient,
    request: FieldOptionsRequest,
    reply: JsonView,
)
    requires
        client@.field_options_of(request@, reply) is Ok,
    ensures
        ({
            let listed = client@.field_options_of(request@, reply)->Ok_0;
            let wanted = listed.filter(
                |option: JsonView| is_wanted_option(option, request.contains),
            );
            let kept = if wanted.len() <= limit_of(request.return_limit) {
                wanted
            } else {
                wanted.take(limit_of(request.return_limit))
            };
            let found = options_found(client, request, reply)->Ok_0;
            &&& !request.values_only ==> {
                &&& found.member("values"@) == Some(JsonView::Array(kept))
                &&& forall|key: Seq<char>| #[trigger] found.member(key) is Some ==> key == "values"@
            }
            &&& request.values_only ==> found == JsonView::Array(
                kept.filter(|option: JsonView| name_of_option(option) is Some).map_values(
                    |option: JsonView| JsonView::Text(name_of_option(option)->0),
                ),
            )
        }),
{
    let listed = client@.field_options_of(request@, reply)->Ok_0;
    let matching = |option: JsonView| client::option_matches(option, request.contains.deep_view());
    let wanted = |option: JsonView| is_wanted_option(option, request.contains);
    assert forall|option: JsonView| #[trigger] models::option_label(option) == name_of_option(
        option,
    ) by {}
    lemma_same_filter(listed, matching, wanted);
    let kept = client::matching_options(listed, request.contains.deep_view(), request.return_limit);
    let labelled = |option: JsonView| models::option_label(option) is Some;
    let named = |option: JsonView| name_of_option(option) is Some;
    lemma_same_filter(kept, labelled, named);
    if request.values_only {
        let items = options_found(client, request, reply)->Ok_0->Array_0;
        let labels = models::labels_of(kept);
        let named_options = kept.filter(named);
        assert(items =~= named_options.map_values(
            |option: JsonView| JsonView::Text(name_of_option(option)->0),
        )) by {
            assert forall|i: int| 0 <= i < named_options.len() implies #[trigger] items[i]
                == JsonView::Text(name_of_option(named_options[i])->0) by {
                assert(labels[i] == models::option_label(named_options[i])->0);
            }
        }
    }
}

/// Filters that agree on every item keep the same.
pub proof fn lemma_same_filter(
    items: Seq<JsonView>,
    left: spec_fn(JsonView) -> bool,
    right: spec_fn(JsonView) -> bool,
)
    requires
        forall|i: int| 0 <= i < items.len() ==> left(#[trigger] items[i]) == right(items[i]),
    ensures
        items.filter(left) == items.filter(right),
    decreases items.len(),
{
    reveal(Seq::filter);
    if items.len() > 0 {
        let rest = items.drop_last();
        assert forall|i: int| 0 <= i < rest.len() implies left(#[trigger] rest[i]) == right(
            rest[i],
        ) by {
            assert(rest[i] == items[i]);
        }
        assert(items.last() == items[items.len() - 1]);
        lemma_same_filter(rest, left, right);
    }
}

/// The listing of options misses none: an option that is listed and wanted is given back
/// where the limit is not reached. What is given back was listed and is wanted, and is no
/// more than the limit.
pub proof fn law_option_listing_gives_what_is_wanted(
    client: JiraClient,
    request: FieldOptionsRequest,
    reply: JsonView,
    option: JsonView,
)
    requires
        !request.values_only,
    ensures
        options_found(client, request, reply) matches Ok(found) ==> {
            let listed = client@.field_options_of(request@, reply)->Ok_0;
            &&& found.member("values"@) matches Some(JsonView::Array(given))
            &&& given.len() <= limit_of(request.return_limit)
            &&& given.contains(option) ==> listed.contains(option) && is_wanted_option(
                option,
                request.contains,
            )
            &&& listed.contains(option) && is_wanted_option(option, request.contains)
                && given.len() < limit_of(request.return_limit) ==> given.contains(option)
        },
{
    if options_found(client, request, reply) is Ok {
        law_option_listing_keeps_the_order(client, request, reply);
        let listed = client@.field_options_of(request@, reply)->Ok_0;
        let wanted = |option: JsonView| is_wanted_option(option, request.contains);
        lemma_filter_holds(listed, wanted, option);
        let given = options_found(client, request, reply)->Ok_0.member("values"@)->0->Array_0;
        let all = listed.filter(wanted);
        if given.contains(option) {
            let i = choose|i: int| 0 <= i < given.len() && given[i] == option;
            assert(all[i] == option);
        }
    }
}

/// The options of a field are asked for where the service has them: on Cloud under a
/// context of the field, on Server and Data Center under the creation of issues of a type
/// in a project. What is needed for that must be given.
pub proof fn law_options_are_asked_for_where_they_are(
    client: JiraClient,
    request: FieldOptionsRequest,
)
    ensures
        match client.config.deployment {
            JiraDeployment::Cloud => {
                let owed = is_segment(request.field_id@)
                    && (request.context_id matches Some(context)
                    && is_segment(context@));
                match client@.field_options_request(request@) {
                    Ok(made) => {
                        &&& owed
                        &&& is_sent_to(
                            made,
                            client,
                            Method::Get,
                            "/rest/api/3/field/"@ + text::trimmed(request.field_id@) + "/context/"@
                                + text::trimmed(request.context_id->0@) + "/option"@,
                        )
                        &&& made.body is None
                        &&& made.query == seq![
                            (
                                "maxResults"@,
                                text::decimal(limit_of(request.return_limit) as nat),
                            ),
                        ]
                    },
                    Err(error) => if owed {
                        error is Transport
                    } else {
                        error is InvalidInput
                    },
                }
            },
            JiraDeployment::ServerDataCenter => {
                let owed = is_segment(request.field_id@)
                    && (request.project_key matches Some(project)
                    && is_segment(project@)) && request.issue_type is Some;
                match client@.field_options_request(request@) {
                    Ok(made) => {
                        &&& owed
                        &&& is_sent_to(made, client, Method::Get, "/rest/api/2/issue/createmeta"@)
                        &&& made.body is None
                        &&& made.query == seq![
                            ("projectKeys"@, text::trimmed(request.project_key->0@)),
                            ("issuetypeNames"@, request.issue_type->0@),
                            ("expand"@, "projects.issuetypes.fields"@),
                        ]
                    },
                    Err(error) => if owed {
                        error is Transport
                    } else {
                        error is InvalidInput
                    },
                }
            },
        },
{
    lemma_segment(request.field_id@, "field_id"@);
    if let Some(context_id) = request.context_id {
        lemma_segment(context_id@, "context_id"@);
    }
    if let Some(project_key) = request.project_key {
        lemma_segment(project_key@, "project_key"@);
    }
}

/// The items under `key`, none where there is no array.
pub open spec fn items_under(value: JsonView, key: Seq<char>) -> Seq<JsonView> {
    match value.member(key) {
        Some(JsonView::Array(items)) => items,
        _ => Seq::empty(),
    }
}

/// The field of an id among the fields of one issue type of one project.
pub open spec fn field_at(value: JsonView, project: int, issue_type: int, id: Seq<char>) -> Option<
    JsonView,
> {
    let types = items_under(items_under(value, "projects"@)[project], "issuetypes"@);
    match types[issue_type].member("fields"@) {
        Some(fields) => fields.member(id),
        None => None,
    }
}

/// Whether there is such an issue type of such a project.
pub open spec fn has_type(value: JsonView, project: int, issue_type: int) -> bool {
    &&& 0 <= project < items_under(value, "projects"@).len()
    &&& 0 <= issue_type < items_under(
        items_under(value, "projects"@)[project],
        "issuetypes"@,
    ).len()
}

/// Whether all values of an array are objects.
pub open spec fn are_objects(values: Seq<JsonView>) -> bool {
    forall|i: int| 0 <= i < values.len() ==> (#[trigger] values[i]) is Object
}

proof fn lemma_field_of_types(types: Seq<JsonView>, id: Seq<char>, at: int)
    requires
        0 <= at <= types.len(),
        forall|k: int|
            0 <= k < at ==> ((#[trigger] types[k]).member("fields"@) matches Some(fields)
                ==> fields.member(id) is None),
        at < types.len() ==> (types[at].member("fields"@) matches Some(fields) && fields.member(id)
            is Some),
    ensures
        client::field_of_types(types, id) == (if at < types.len() {
            types[at].member("fields"@)->0.member(id)
        } else {
            None
        }),
    decreases types.len(),
{
    if types.len() > 0 && at > 0 {
        let rest = types.drop_first();
        assert(types[0] == types.first());
        assert forall|k: int| 0 <= k < at - 1 implies ((#[trigger] rest[k]).member("fields"@)
            matches Some(fields) ==> fields.member(id) is None) by {
            assert(rest[k] == types[k + 1]);
        }
        lemma_field_of_types(rest, id, at - 1);
    }
}

proof fn lemma_field_of_projects(projects: Seq<JsonView>, id: Seq<char>, at: int)
    requires
        0 <= at <= projects.len(),
        forall|k: int|
            0 <= k < at ==> client::field_of_types(
                items_under(#[trigger] projects[k], "issuetypes"@),
                id,
            ) is None,
        at < projects.len() ==> client::field_of_types(
            items_under(projects[at], "issuetypes"@),
            id,
        ) is Some,
    ensures
        client::field_of_projects(projects, id) == (if at < projects.len() {
            client::field_of_types(items_under(projects[at], "issuetypes"@), id)
        } else {
            None
        }),
    decreases projects.len(),
{
    if projects.len() > 0 && at > 0 {
        let rest = projects.drop_first();
        assert(projects[0] == projects.first());
        assert forall|k: int| 0 <= k < at - 1 implies client::field_of_types(
            items_under(#[trigger] rest[k], "issuetypes"@),
            id,
        ) is None by {
            assert(rest[k] == projects[k + 1]);
        }
        lemma_field_of_projects(rest, id, at - 1);
    }
}

/// On Server and Data Center the options of a field are the allowed values of the first
/// field of its id, type after type and project after project; other replies are of an
/// unexpected shape.
pub proof fn law_server_options_are_the_allowed_values(
    client: JiraClient,
    request: FieldOptionsRequest,
    reply: JsonView,
    project: int,
    issue_type: int,
)
    requires
        client.config.deployment == JiraDeployment::ServerDataCenter,
        has_type(reply, project, issue_type),
        forall|p: int, t: int| #[trigger]
            has_type(reply, p, t) && (p < project || p == project && t < issue_type) ==> field_at(
                reply,
                p,
                t,
                text::trimmed(request.field_id@),
            ) is None,
        field_at(reply, project, issue_type, text::trimmed(request.field_id@)) is Some,
    ensures
        match field_at(
            reply,
            project,
            issue_type,
            text::trimmed(request.field_id@),
        )->0.member("allowedValues"@) {
            Some(JsonView::Array(values)) => if are_objects(values) {
                client@.field_options_of(request@, reply) == Ok::<Seq<JsonView>, ErrorView>(values)
            } else {
                client@.field_options_of(request@, reply) matches Err(error) && error
                    is UnexpectedShape
            },
            _ => client@.field_options_of(request@, reply) matches Err(error) && error
                is UnexpectedShape,
        },
{
    let id = text::trimmed(request.field_id@);
    let projects = items_under(reply, "projects"@);
    assert forall|k: int| 0 <= k < project implies client::field_of_types(
        items_under(#[trigger] projects[k], "issuetypes"@),
        id,
    ) is None by {
        let types = items_under(projects[k], "issuetypes"@);
        assert forall|t: int| 0 <= t < types.len() implies ((#[trigger] types[t]).member("fields"@)
            matches Some(fields) ==> fields.member(id) is None) by {
            assert(has_type(reply, k, t));
        }
        lemma_field_of_types(types, id, types.len() as int);
    }
    let types = items_under(projects[project], "issuetypes"@);
    assert forall|t: int| 0 <= t < issue_type implies ((#[trigger] types[t]).member("fields"@)
        matches Some(fields) ==> fields.member(id) is None) by {
        assert(has_type(reply, project, t));
    }
    lemma_field_of_types(types, id, issue_type);
    lemma_field_of_projects(projects, id, project);
}

/// On Server and Data Center a reply without a field of the id has an unexpected shape.
pub proof fn law_server_options_need_the_field(
    client: JiraClient,
    request: FieldOptionsRequest,
    reply: JsonView,
)
    requires
        client.config.deployment == JiraDeployment::ServerDataCenter,
        forall|p: int, t: int| #[trigger]
            has_type(reply, p, t) ==> field_at(reply, p, t, text::trimmed(request.field_id@))
                is None,
    ensures
        client@.field_options_of(request@, reply) matches Err(error) && error is UnexpectedShape,
{
    let id = text::trimmed(request.field_id@);
    let projects = items_under(reply, "projects"@);
    assert forall|k: int| 0 <= k < projects.len() implies client::field_of_types(
        items_under(#[trigger] projects[k], "issuetypes"@),
        id,
    ) is None by {
        let types = items_under(projects[k], "issuetypes"@);
        assert forall|t: int| 0 <= t < types.len() implies ((#[trigger] types[t]).member("fields"@)
            matches Some(fields) ==> fields.member(id) is None) by {
            assert(has_type(reply, k, t));
        }
        lemma_field_of_types(types, id, types.len() as int);
    }
    lemma_field_of_projects(projects, id, projects.len() as int);
}

/// On Cloud the options of a field are the objects under `values`; a reply without a list
/// of objects there cannot be decoded.
pub proof fn law_cloud_options_are_the_values(
    client: JiraClient,
    request: FieldOptionsRequest,
    reply: JsonView,
)
    requires
        client.config.deployment == JiraDeployment::Cloud,
    ensures
        match reply.member("values"@) {
            Some(JsonView::Array(values)) => if are_objects(values) {
                client@.field_options_of(request@, reply) == Ok::<Seq<JsonView>, ErrorView>(values)
            } else {
                client@.field_options_of(request@, reply) matches Err(error) && error is JsonDecode
            },
            _ => client@.field_options_of(request@, reply) matches Err(error) && error
                is JsonDecode,
        },
{
}

/// An issue is given back as it was reported, with its summary at hand beside its fields;
/// what is missing of the two is null.
pub proof fn law_issues_have_their_summary_at_hand(issue: JsonView, key: Seq<char>)
    requires
        issue is Object,
    ensures
        ({
            let read = models::simplified_issue(issue);
            let fields = match issue.member("fields"@) {
                Some(fields) => fields,
                None => JsonView::Null,
            };
            &&& read.member("fields"@) == Some(fields)
            &&& read.member("summary"@) == Some(
                match fields.member("summary"@) {
                    Some(summary) => summary,
                    None => JsonView::Null,
                },
            )
            &&& key != "fields"@ && key != "summary"@ ==> read.member(key) == issue.member(key)
        }),
{
    reveal_strlit("fields");
    reveal_strlit("summary");
    assert("fields"@.len() == 6);
    assert("summary"@.len() == 7);
}

/// What a search found is given back issue by issue in its order, each as it would be read
/// alone, with the token of the next page; all else stays as it was reported.
pub proof fn law_search_results_keep_their_issues(result: JsonView, key: Seq<char>, i: int)
    requires
        result is Object,
    ensures
        ({
            let read = models::simplified_search(result);
            let issues = items_under(result, "issues"@);
            &&& result.member("issues"@) matches Some(JsonView::Array(_)) ==> (read.member(
                "issues"@,
            ) matches Some(JsonView::Array(given)) && given.len() == issues.len() && (0 <= i
                < issues.len() ==> given[i] == models::simplified_issue(issues[i])))
            &&& !(result.member("issues"@) matches Some(JsonView::Array(_))) ==> read.member(
                "issues"@,
            ) == result.member("issues"@)
            &&& read.member("next_page_token"@) == result.member("nextPageToken"@)
            &&& read.member("nextPageToken"@) is None
            &&& key != "issues"@ && key != "next_page_token"@ && key != "nextPageToken"@
                ==> read.member(key) == result.member(key)
        }),
{
    reveal_strlit("issues");
    reveal_strlit("nextPageToken");
    reveal_strlit("next_page_token");
    assert("issues"@.len() == 6);
    assert("nextPageToken"@.len() == 13);
    assert("next_page_token"@.len() == 15);
}

/// A comment is given back as it was reported, but with the text of its body without the
/// white space around it and with its author's name under `display_name`, null where there
/// is none.
pub proof fn law_comments_are_given_back_as_text(comment: JsonView, key: Seq<char>)
    requires
        comment is Object,
    ensures
        ({
            let read = models::simplified_comment(comment);
            let body = match comment.member("body"@) {
                Some(body) => text::trimmed(formatting::adf_text(body)),
                None => Seq::empty(),
            };
            let name = match comment.member("author"@) {
                Some(author) => author.member("displayName"@),
                None => None,
            };
            &&& read.member("body"@) == Some(JsonView::Text(body))
            &&& read.member("author"@) is Some
            &&& read.member("author"@)->0.member("display_name"@) == Some(
                match name {
                    Some(name) => name,
                    None => JsonView::Null,
                },
            )
            &&& comment.member("author"@) is Some && comment.member("author"@)->0 is Object && key
                != "display_name"@ ==> read.member("author"@)->0.member(key) == comment.member(
                "author"@,
            )->0.member(key)
            &&& key != "body"@ && key != "author"@ ==> read.member(key) == comment.member(key)
        }),
{
    reveal_strlit("body");
    reveal_strlit("author");
    reveal_strlit("displayName");
    reveal_strlit("display_name");
    assert("body"@.len() == 4);
    assert("author"@.len() == 6);
    assert("displayName"@.len() == 11);
    assert("display_name"@.len() == 12);
    models::law_missing_comment_parts_are_blank(comment);
}

/// A comment that was sent and comes back as it was sent reads as the text that was given,
/// without the white space around it.
pub proof fn law_sent_comments_read_back(
    client: JiraClient,
    issue_key: Seq<char>,
    text: Seq<char>,
    visibility: Option<JsonView>,
)
    ensures
        client@.add_comment_request(issue_key, text, visibility) matches Ok(made) ==> (made.body
            matches Some(sent) && models::simplified_comment(sent).member("body"@) == Some(
            JsonView::Text(text::trimmed(text)),
        )),
{
    reveal_strlit("body");
    reveal_strlit("author");
    reveal_strlit("visibility");
    assert("body"@.len() == 4);
    assert("author"@.len() == 6);
    assert("visibility"@.len() == 10);
    formatting::law_comment_body_reads_back(client.config.deployment, text);
}

/// Transitions are given back one by one in their order, each with its fields and with the
/// name of the status that it leads to, null where they are missing; all else stays as it
/// was reported.
pub proof fn law_transitions_are_given_back_complete(listing: JsonView, key: Seq<char>, i: int)
    requires
        listing is Object,
    ensures
        ({
            let read = models::simplified_transitions(listing);
            let reported = items_under(listing, "transitions"@);
            &&& read.member("transitions"@) matches Some(JsonView::Array(given))
            &&& given.len() == reported.len()
            &&& 0 <= i < reported.len() && reported[i] is Object ==> {
                let to = match reported[i].member("to"@) {
                    Some(to) => to.member("name"@),
                    None => None,
                };
                &&& given[i].member("fields"@) == Some(
                    match reported[i].member("fields"@) {
                        Some(fields) => fields,
                        None => JsonView::Null,
                    },
                )
                &&& given[i].member("to"@) is Some
                &&& given[i].member("to"@)->0.member("name"@) == Some(
                    match to {
                        Some(name) => name,
                        None => JsonView::Null,
                    },
                )
                &&& key != "fields"@ && key != "to"@ ==> given[i].member(key)
                    == reported[i].member(key)
            }
            &&& key != "transitions"@ ==> read.member(key) == listing.member(key)
        }),
{
    reveal_strlit("transitions");
    reveal_strlit("fields");
    reveal_strlit("to");
    reveal_strlit("name");
    assert("transitions"@.len() == 11);
    assert("fields"@.len() == 6);
    assert("to"@.len() == 2);
    assert("name"@.len() == 4);
}

/// What is told of a transition names the issue and the transition as they were sent, with
/// what the service answered, and nothing else.
pub proof fn law_transition_reports_name_what_was_sent(
    issue_key: Seq<char>,
    transition_id: Seq<char>,
    response: JsonView,
)
    ensures
        ({
            let report = client::transition_report(issue_key, transition_id, response);
            &&& report.member("issue_key"@) == Some(JsonView::Text(issue_key))
            &&& report.member("transition_id"@) == Some(JsonView::Text(transition_id))
            &&& report.member("response"@) == Some(response)
            &&& forall|key: Seq<char>| #[trigger]
                report.member(key) is Some ==> key == "issue_key"@ || key == "transition_id"@
                    || key == "response"@
        }),
{
    reveal_strlit("issue_key");
    reveal_strlit("transition_id");
    reveal_strlit("response");
    assert("issue_key"@.len() == 9);
    assert("transition_id"@.len() == 13);
    assert("response"@.len() == 8);
}

/// An object is accepted as an argument as itself or as JSON text, and nothing else is; a
/// list of objects is accepted as an array or as JSON text, whole and in its order.
pub proof fn law_object_arguments(value: JsonView, field_name: Seq<char>)
    ensures
        match given_object(value) {
            Some(object) => formatting::object_argument(value, field_name) == Ok::<
                JsonView,
                ErrorView,
            >(object),
            None => formatting::object_argument(value, field_name) matches Err(error) && error
                is InvalidInput,
        },
        ({
            let listed = match value {
                JsonView::Text(raw) => crate::json_codec::parsed_json(raw),
                _ => Some(value),
            };
            match listed {
                Some(JsonView::Array(items)) => if are_objects(items) {
                    formatting::object_list_argument(value, field_name) == Ok::<
                        Seq<JsonView>,
                        ErrorView,
                    >(items)
                } else {
                    formatting::object_list_argument(value, field_name) matches Err(error) && error
                        is InvalidInput
                },
                _ => formatting::object_list_argument(value, field_name) matches Err(error)
                    && error is InvalidInput,
            }
        }),
        formatting::optional_object_argument(None, field_name) == Ok::<
            Option<JsonView>,
            ErrorView,
        >(None),
        match given_object(value) {
            Some(object) => formatting::optional_object_argument(Some(value), field_name) == Ok::<
                Option<JsonView>,
                ErrorView,
            >(Some(object)),
            None => formatting::optional_object_argument(Some(value), field_name) is Err,
        },
{
}

/// Whether a value is a text with more than white space in it.
pub open spec fn is_full_text(value: JsonView) -> bool {
    value is Text && text::trimmed(value->Text_0).len() > 0
}

/// An array is accepted as a list of texts where each item is a text with more than white
/// space in it, and gives the texts in their order without the white space around them.
/// What is neither an array nor a text is refused.
pub proof fn law_arrays_list_their_texts(value: JsonView, field_name: Seq<char>, i: int)
    requires
        !(value is Text),
    ensures
        (formatting::string_list_argument(value, field_name) is Ok) == (value is Array && forall|
            k: int,
        |
            0 <= k < value->Array_0.len() ==> is_full_text(#[trigger] value->Array_0[k])),
        formatting::string_list_argument(value, field_name) matches Err(error) ==> error
            is InvalidInput,
        formatting::string_list_argument(value, field_name) matches Ok(texts) ==> texts.len()
            == value->Array_0.len() && (0 <= i < texts.len() ==> texts[i] == text::trimmed(
            value->Array_0[i]->Text_0,
        )),
        formatting::optional_string_list_argument(Some(value), field_name) == (
        match formatting::string_list_argument(value, field_name) {
            Ok(texts) => Ok::<Option<Seq<Seq<char>>>, ErrorView>(Some(texts)),
            Err(error) => Err(error),
        }),
        formatting::optional_string_list_argument(None, field_name) == Ok::<
            Option<Seq<Seq<char>>>,
            ErrorView,
        >(None),
{
    if let JsonView::Array(items) = value {
        let full = forall|k: int| 0 <= k < items.len() ==> is_full_text(#[trigger] items[k]);
        if full {
            assert forall|k: int| 0 <= k < items.len() implies formatting::is_non_blank_text(
                #[trigger] items[k],
            ) by {
                assert(is_full_text(items[k]));
            }
        }
        if formatting::string_list_argument(value, field_name) is Ok {
            assert forall|k: int| 0 <= k < items.len() implies is_full_text(#[trigger] items[k]) by {
                assert(formatting::is_non_blank_text(items[k]));
            }
        }
    }
}

/// A text lists the same as the array of the texts between its commas, but for those of
/// white space alone.
pub proof fn law_texts_list_what_stands_between_commas(parts: Seq<Seq<char>>, field_name: Seq<char>)
    requires
        parts.len() > 0,
        forall|i: int|
            0 <= i < parts.len() ==> !(#[trigger] parts[i]).contains(',') && text::trimmed(
                parts[i],
            ).len() > 0,
    ensures
        formatting::string_list_argument(JsonView::Text(comma_separated(parts)), field_name)
            == formatting::string_list_argument(
            JsonView::Array(parts.map_values(|part: Seq<char>| JsonView::Text(part))),
            field_name,
        ),
        formatting::string_list_argument(
            JsonView::Text(comma_separated(parts) + seq![',']),
            field_name,
        ) == formatting::string_list_argument(
            JsonView::Text(comma_separated(parts)),
            field_name,
        ),
{
    text::law_joined_texts_split_again(parts, ',');
    let full = |text: Seq<char>| text.len() > 0;
    let inner = parts.map_values(|text: Seq<char>| text::trimmed(text));
    assert forall|i: int| 0 <= i < inner.len() implies full(#[trigger] inner[i]) by {
        assert(text::trimmed(parts[i]).len() > 0);
    }
    lemma_all_kept(inner, full);
    let items = parts.map_values(|part: Seq<char>| JsonView::Text(part));
    assert forall|i: int| 0 <= i < items.len() implies formatting::is_non_blank_text(
        #[trigger] items[i],
    ) by {
        assert(text::trimmed(parts[i]).len() > 0);
    }
    assert(items.map_values(|item: JsonView| text::trimmed(item->Text_0)) =~= inner);
    let text = comma_separated(parts) + seq![','];
    assert(text.drop_last() =~= comma_separated(parts));
    let pieces = text::split_at(text, ',');
    assert(pieces == parts.push(Seq::empty()));
    let nothing = Seq::<char>::empty();
    assert(text::trim_start(nothing, |c: char| text::is_whitespace(c)) =~= nothing);
    assert(text::trimmed(nothing).len() == 0);
    let more = pieces.map_values(|text: Seq<char>| text::trimmed(text));
    assert(more.drop_last() =~= inner);
    assert(more.filter(full) == inner) by {
        reveal(Seq::filter);
    }
}

proof fn lemma_all_kept(items: Seq<Seq<char>>, kept: spec_fn(Seq<char>) -> bool)
    requires
        forall|i: int| 0 <= i < items.len() ==> kept(#[trigger] items[i]),
    ensures
        items.filter(kept) == items,
    decreases items.len(),
{
    reveal(Seq::filter);
    if items.len() > 0 {
        let rest = items.drop_last();
        assert forall|i: int| 0 <= i < rest.len() implies kept(#[trigger] rest[i]) by {
            assert(rest[i] == items[i]);
        }
        lemma_all_kept(rest, kept);
        assert(kept(items[items.len() - 1]));
        assert(rest.push(items.last()) =~= items);
    } else {
        assert(items.filter(kept) =~= items);
    }
}

/// Of two objects that are merged the second says what is under a key where it has the key,
/// and the first where not.
pub proof fn law_merged_objects(
    base: JsonView,
    additional: JsonView,
    field_name: Seq<char>,
    key: Seq<char>,
)
    requires
        base is Object,
    ensures
        formatting::merged_objects(base, None, field_name) == Ok::<JsonView, ErrorView>(base),
        (formatting::merged_objects(base, Some(additional), field_name) is Ok) == (additional
            is Object),
        formatting::merged_objects(base, Some(additional), field_name) matches Ok(merged)
            ==> merged is Object && merged.member(key) == (if additional.member(key) is Some {
            additional.member(key)
        } else {
            base.member(key)
        }),
{
}

/// A client reads the fields that a keyword searches for from a reply.
pub proof fn law_client_reads_fields(
    client: JiraClient,
    keyword: Option<String>,
    limit: Option<u64>,
    reply: Json,
    found: Result<Json, AtlassianError>,
)
    requires
        call_ensures(JiraClient::read_fields_reply, (&client, keyword, limit, reply), found),
    ensures
        match fields_found(reply@, keyword.deep_view(), limit) {
            Ok(fields) => found matches Ok(found) && found@ == JsonView::Array(fields),
            Err(error) => found matches Err(told) && told@ == error,
        },
{
}

/// A client reads the options that a request asks for from a reply.
pub proof fn law_client_reads_options(
    client: JiraClient,
    request: FieldOptionsRequest,
    reply: Json,
    found: Result<Json, AtlassianError>,
)
    requires
        call_ensures(JiraClient::read_field_options_reply, (&client, request, reply), found),
    ensures
        match options_found(client, request, reply@) {
            Ok(options) => found matches Ok(found) && found@ == options,
            Err(error) => found matches Err(told) && told@ == error,
        },
{
}

/// A client reads an issue, the result of a search, a comment and a listing of transitions
/// from an object, and can decode none of them from anything else.
pub proof fn law_client_reads_objects(
    client: JiraClient,
    reply: Json,
    issue: Result<Json, AtlassianError>,
    result: Result<Json, AtlassianError>,
    comment: Result<Json, AtlassianError>,
    listing: Result<Json, AtlassianError>,
)
    requires
        call_ensures(JiraClient::read_issue_reply, (&client, reply), issue),
        call_ensures(JiraClient::read_search_reply, (&client, reply), result),
        call_ensures(JiraClient::read_comment_reply, (&client, reply), comment),
        call_ensures(JiraClient::read_transitions_reply, (&client, reply), listing),
    ensures
        reply@ is Object ==> {
            &&& issue matches Ok(issue) && issue@ == models::simplified_issue(reply@)
            &&& result matches Ok(result) && result@ == models::simplified_search(reply@)
            &&& comment matches Ok(comment) && comment@ == models::simplified_comment(reply@)
            &&& listing matches Ok(listing) && listing@ == models::simplified_transitions(reply@)
        },
        !(reply@ is Object) ==> {
            &&& issue matches Err(error) && error@ is JsonDecode
            &&& result matches Err(error) && error@ is JsonDecode
            &&& comment matches Err(error) && error@ is JsonDecode
            &&& listing matches Err(error) && error@ is JsonDecode
        },
{
}

/// What a client tells of a transition names the issue and the transition as they stood in
/// the request, and holds what the service answered.
pub proof fn law_client_reports_transitions(
    client: JiraClient,
    issue_key: String,
    transition_id: String,
    response: Json,
    report: Json,
    made: RequestView,
    fields: Option<JsonView>,
    comment: Option<Seq<char>>,
)
    requires
        call_ensures(
            JiraClient::read_transition_reply,
            (&client, issue_key, transition_id, response),
            report,
        ),
        client@.transition_request(issue_key@, transition_id@, fields, comment) == Ok::<
            RequestView,
            ErrorView,
        >(made),
    ensures
        report@.member("issue_key"@) == Some(JsonView::Text(text::trimmed(issue_key@))),
        report@.member("transition_id"@) == made.body->0.member("transition"@)->0.member("id"@),
        report@.member("response"@) == Some(response@),
{
    law_transition_reports_name_what_was_sent(
        text::trimmed(issue_key@),
        text::trimmed(transition_id@),
        response@,
    );
    law_transitions_are_sent_with_fields_and_comment(
        client,
        issue_key@,
        transition_id@,
        fields,
        comment,
        made,
    );
}

/// A client makes the requests that its laws speak of.
pub proof fn law_client_makes_its_requests(
    client: JiraClient,
    read: GetIssueRequest,
    read_made: Result<ApiRequest, AtlassianError>,
    search: SearchRequest,
    search_made: Result<ApiRequest, AtlassianError>,
    options: FieldOptionsRequest,
    options_made: Result<ApiRequest, AtlassianError>,
)
    requires
        call_ensures(JiraClient::get_issue, (&client, read), read_made),
        call_ensures(JiraClient::search, (&client, search), search_made),
        call_ensures(JiraClient::get_field_options, (&client, &options), options_made),
    ensures
        match client@.get_issue_request(read@) {
            Ok(request) => read_made matches Ok(made) && made@ == request,
            Err(error) => read_made matches Err(told) && told@ == error,
        },
        match client@.search_request(search@) {
            Ok(request) => search_made matches Ok(made) && made@ == request,
            Err(error) => search_made matches Err(told) && told@ == error,
        },
        match client@.field_options_request(options@) {
            Ok(request) => options_made matches Ok(made) && made@ == request,
            Err(error) => options_made matches Err(told) && told@ == error,
        },
{
}

/// A client makes the requests on comments and transitions that its laws speak of.
pub proof fn law_client_makes_its_changes(
    client: JiraClient,
    issue_key: String,
    id: String,
    text: String,
    object: Option<Json>,
    comment: Option<String>,
    added: Result<ApiRequest, AtlassianError>,
    edited: Result<ApiRequest, AtlassianError>,
    taken: Result<ApiRequest, AtlassianError>,
)
    requires
        call_ensures(JiraClient::add_comment, (&client, issue_key, text, object), added),
        call_ensures(JiraClient::edit_comment, (&client, issue_key, id, text, object), edited),
        call_ensures(
            JiraClient::transition_issue,
            (&client, issue_key, id, object, comment),
            taken,
        ),
    ensures
        match client@.add_comment_request(issue_key@, text@, object.deep_view()) {
            Ok(request) => added matches Ok(made) && made@ == request,
            Err(error) => added matches Err(told) && told@ == error,
        },
        match client@.edit_comment_request(issue_key@, id@, text@, object.deep_view()) {
            Ok(request) => edited matches Ok(made) && made@ == request,
            Err(error) => edited matches Err(told) && told@ == error,
        },
        match client@.transition_request(
            issue_key@,
            id@,
            object.deep_view(),
            comment.deep_view(),
        ) {
            Ok(request) => taken matches Ok(made) && made@ == request,
            Err(error) => taken matches Err(told) && told@ == error,
        },
{
}

} // verus!
