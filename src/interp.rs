use vstd::prelude::*;
use vstd::string::*;
use crate::frame::{
    MSG_CREATE, MSG_DELETE, MSG_LIST_COLLECTIONS, MSG_QUERY, MSG_UPDATE, MSG_VECTOR_SEARCH,
};
use crate::text::{
    chars_of, has_tok, lemma_has_tok_earlier, lower_of, lowercase, parse_usize, rest, rest_from, tok, token,
    usize_text,
};
use crate::value::{
    empty_object, is_str, unique_keys, json_text_value, parse_json, str_eq, Json, JsonNumber,
};

verus! {

/// Which arguments a command takes, for a command given too few or too many.
#[derive(Clone, Copy, Debug, PartialEq, Eq, Structural)]
pub enum ArgHint {
    CollectionName,
    JsonData,
    IdAndJson,
    DocumentId,
    Vector,
    NoArgument,
}

/// A command refused before anything is sent.
#[derive(Debug, PartialEq)]
pub enum CommandError {
    NoCollectionSelected,
    UnknownCommand(String),
    ValueParse,
    MissingArgument(ArgHint),
    ExtraArgument(ArgHint),
}

/// How the reply to a request is to be shown.
#[derive(Debug, PartialEq)]
pub enum ReplyKind {
    Collections,
    Created,
    Updated(String),
    Deleted(String),
    Documents,
    Count,
    Similar,
}

/// One request to send: its message type, its payload value, and how to show the reply.
#[derive(Debug, PartialEq)]
pub struct Request {
    pub msg_type: u8,
    pub body: Json,
    pub kind: ReplyKind,
}

/// What one input line asks for.
#[derive(Debug, PartialEq)]
pub enum Action {
    Nothing,
    Exit,
    Help,
    Switched(String),
    Send(Request),
    Fail(CommandError),
}

/// The interpreter's state: the collection that `use` selected, if any.
pub struct Session {
    pub current_collection: Option<String>,
}

pub open spec fn entry_is(f: Seq<(String, Json)>, i: int, key: Seq<char>, v: Json) -> bool {
    f[i].0@ == key && f[i].1 == v
}

pub open spec fn entry_str(f: Seq<(String, Json)>, i: int, key: Seq<char>, s: Seq<char>) -> bool {
    f[i].0@ == key && is_str(f[i].1, s)
}

pub open spec fn entry_uint(f: Seq<(String, Json)>, i: int, key: Seq<char>, n: nat) -> bool {
    f[i].0@ == key && f[i].1 == Json::Number(JsonNumber::PosInt(n as u64))
}

/// The filter a `query` or `count` carries: `{}` when none is given.
pub open spec fn filter_ok(text: Seq<char>, v: Json) -> bool {
    if text.len() == 0 {
        v matches Json::Object(o) && o@.len() == 0
    } else {
        json_text_value(text) == Some(v)
    }
}

/// The first index at or after `i` just past a `]`, or the length when there is none.
pub open spec fn vector_end_from(a: Seq<char>, i: int) -> int
    decreases a.len() - i,
{
    if i >= a.len() {
        a.len() as int
    } else if a[i] == ']' {
        i + 1
    } else {
        vector_end_from(a, i + 1)
    }
}

/// The bracketed vector at the start of `vector_search`'s arguments.
pub open spec fn vector_text(a: Seq<char>) -> Seq<char> {
    a.subrange(0, vector_end_from(a, 0))
}

/// What follows the vector.
pub open spec fn after_vector(a: Seq<char>) -> Seq<char> {
    a.subrange(vector_end_from(a, 0), a.len() as int)
}

/// An array whose every element is a number.
pub open spec fn number_array(v: Json) -> bool {
    v matches Json::Array(x) && forall|i: int| 0 <= i < x@.len() ==> (#[trigger] x@[i]) is Number
}

pub open spec fn array_len(v: Json) -> nat {
    match v {
        Json::Array(x) => x@.len(),
        _ => 0,
    }
}

/// The `k`-th word of `s` read as a count, else `dflt`.
pub open spec fn count_or(s: Seq<char>, k: nat, dflt: nat) -> nat {
    if has_tok(s, k) && usize_text(tok(s, k)) is Some {
        usize_text(tok(s, k))->0 as nat
    } else {
        dflt
    }
}

/// A command refused with `e`.
pub open spec fn fail(e: CommandError) -> Action {
    Action::Fail(e)
}

pub open spec fn needs_collection(cmd: Seq<char>) -> bool {
    cmd == "create"@ || cmd == "query"@ || cmd == "update"@ || cmd == "delete"@ || cmd
        == "count"@ || cmd == "vector_search"@
}

/// The fields of the object that a `Send` action carries.
pub open spec fn sent_fields(r: Action) -> Seq<(String, Json)> {
    r->Send_0.body->Object_0@
}

/// `r` sends an object of `n` fields, no two with the same key, under message type `t`.
pub open spec fn sends(r: Action, t: u8, n: nat) -> bool {
    r is Send && r->Send_0.msg_type == t && r->Send_0.body is Object && sent_fields(r).len() == n
        && unique_keys(sent_fields(r))
}

/// The request `create` sends to collection `c` with the parsed document `data`.
pub open spec fn create_sent(c: Seq<char>, data: Option<Json>, r: Action) -> bool {
    match data {
        None => r == fail(CommandError::ValueParse),
        Some(d) => sends(r, MSG_CREATE, 2) && r->Send_0.kind == ReplyKind::Created
            && entry_str(sent_fields(r), 0, "collection"@, c)
            && entry_is(sent_fields(r), 1, "data"@, d),
    }
}

/// The request `query` (or `count`, when `is_query` is false) sends to collection `c`;
/// `empty` says no filter was given, else `parsed` is what the filter text parsed to.
pub open spec fn query_sent(
    c: Seq<char>,
    empty: bool,
    parsed: Option<Json>,
    is_query: bool,
    r: Action,
) -> bool {
    if !empty && parsed is None {
        r == fail(CommandError::ValueParse)
    } else {
        sends(r, MSG_QUERY, 3) && r->Send_0.kind == (if is_query {
            ReplyKind::Documents
        } else {
            ReplyKind::Count
        }) && entry_str(sent_fields(r), 0, "collection"@, c)
            && sent_fields(r)[1].0@ == "filters"@ && (if empty {
            sent_fields(r)[1].1 is Object && sent_fields(r)[1].1->Object_0@.len() == 0
        } else {
            sent_fields(r)[1].1 == parsed->0
        }) && entry_uint(sent_fields(r), 2, "limit"@, if is_query { 100 } else { 0 })
    }
}

/// The request `update` sends to collection `c` for document `id` with the parsed `data`.
pub open spec fn update_sent(c: Seq<char>, id: Seq<char>, data: Option<Json>, r: Action) -> bool {
    match data {
        None => r == fail(CommandError::ValueParse),
        Some(d) => sends(r, MSG_UPDATE, 3) && r->Send_0.kind is Updated
            && r->Send_0.kind->Updated_0@ == id
            && entry_str(sent_fields(r), 0, "collection"@, c)
            && entry_str(sent_fields(r), 1, "document_id"@, id)
            && entry_is(sent_fields(r), 2, "data"@, d),
    }
}

/// The request `vector_search` sends to collection `c` for the parsed vector `v`,
/// with `after` the text that follows the vector.
pub open spec fn vector_sent(c: Seq<char>, v: Option<Json>, after: Seq<char>, r: Action) -> bool {
    if !(v is Some && number_array(v->0)) {
        r == fail(CommandError::ValueParse)
    } else {
        sends(r, MSG_VECTOR_SEARCH, 4) && r->Send_0.kind == ReplyKind::Similar
            && entry_str(sent_fields(r), 0, "collection"@, c)
            && entry_is(sent_fields(r), 1, "vector"@, v->0)
            && entry_uint(sent_fields(r), 2, "limit"@, count_or(after, 0, 10))
            && entry_uint(sent_fields(r), 3, "dimensions"@, count_or(after, 1, array_len(v->0)))
    }
}

/// What a command that works on collection `c` asks for.
pub open spec fn collection_outcome(cmd: Seq<char>, s: Seq<char>, c: Seq<char>, r: Action) -> bool {
    if cmd == "create"@ {
        let a = rest(s, 1);
        if a.len() == 0 {
            r == fail(CommandError::MissingArgument(ArgHint::JsonData))
        } else {
            create_sent(c, json_text_value(a), r)
        }
    } else if cmd == "query"@ || cmd == "count"@ {
        let a = rest(s, 1);
        query_sent(c, a.len() == 0, json_text_value(a), cmd == "query"@, r)
    } else if cmd == "update"@ {
        if !has_tok(s, 2) {
            r == fail(CommandError::MissingArgument(ArgHint::IdAndJson))
        } else {
            update_sent(c, tok(s, 1), json_text_value(rest(s, 2)), r)
        }
    } else if cmd == "delete"@ {
        if !has_tok(s, 1) {
            r == fail(CommandError::MissingArgument(ArgHint::DocumentId))
        } else if has_tok(s, 2) {
            r == fail(CommandError::ExtraArgument(ArgHint::DocumentId))
        } else {
            sends(r, MSG_DELETE, 2) && r->Send_0.kind is Deleted
                && r->Send_0.kind->Deleted_0@ == tok(s, 1)
                && entry_str(sent_fields(r), 0, "collection"@, c)
                && entry_str(sent_fields(r), 1, "document_id"@, tok(s, 1))
        }
    } else {
        let a = rest(s, 1);
        if a.len() == 0 {
            r == fail(CommandError::MissingArgument(ArgHint::Vector))
        } else {
            vector_sent(c, json_text_value(vector_text(a)), after_vector(a), r)
        }
    }
}

/// What line `s`, whose first word reads `cmd` in lower case, asks for when `cur` is the
/// selected collection, and the selection after it.
pub open spec fn command_outcome(
    cmd: Seq<char>,
    s: Seq<char>,
    cur: Option<String>,
    r: Action,
    next: Option<String>,
) -> bool {
    if cmd == "exit"@ || cmd == "quit"@ {
        r == Action::Exit && next == cur
    } else if cmd == "help"@ {
        r == Action::Help && next == cur
    } else if cmd == "use"@ {
        if !has_tok(s, 1) {
            r == fail(CommandError::MissingArgument(ArgHint::CollectionName)) && next == cur
        } else if has_tok(s, 2) {
            r == fail(CommandError::ExtraArgument(ArgHint::CollectionName)) && next == cur
        } else {
            r is Switched && r->Switched_0@ == tok(s, 1) && next is Some && next->0@ == tok(s, 1)
        }
    } else if cmd == "collections"@ {
        next == cur && if has_tok(s, 1) {
            r == fail(CommandError::ExtraArgument(ArgHint::NoArgument))
        } else {
            sends(r, MSG_LIST_COLLECTIONS, 0) && r->Send_0.kind == ReplyKind::Collections
        }
    } else if needs_collection(cmd) {
        next == cur && match cur {
            None => r == fail(CommandError::NoCollectionSelected),
            Some(c) => collection_outcome(cmd, s, c@, r),
        }
    } else {
        next == cur && r is Fail && r->Fail_0 is UnknownCommand
            && r->Fail_0->UnknownCommand_0@ == cmd
    }
}

/// What line `s` asks for when `cur` is the selected collection, and the selection after it.
pub open spec fn line_outcome(
    s: Seq<char>,
    cur: Option<String>,
    r: Action,
    next: Option<String>,
) -> bool {
    if !has_tok(s, 0) {
        r == Action::Nothing && next == cur
    } else {
        command_outcome(lower_of(tok(s, 0)), s, cur, r, next)
    }
}

/// A command that works on a collection, given while none is selected, fails with
/// `NoCollectionSelected`: nothing is sent and the selection stays empty.
pub proof fn lemma_no_collection_no_request(s: Seq<char>, r: Action, next: Option<String>)
    requires
        has_tok(s, 0),
        needs_collection(lower_of(tok(s, 0))),
        line_outcome(s, None, r, next),
    ensures
        r == Action::Fail(CommandError::NoCollectionSelected),
        !(r is Send),
        next is None,
{
    reveal_strlit("exit");
    reveal_strlit("quit");
    reveal_strlit("help");
    reveal_strlit("use");
    reveal_strlit("collections");
    reveal_strlit("create");
    reveal_strlit("query");
    reveal_strlit("update");
    reveal_strlit("delete");
    reveal_strlit("count");
    reveal_strlit("vector_search");
    let cmd = lower_of(tok(s, 0));
    assert(cmd.len() == 5 || cmd.len() == 6 || cmd.len() == 13);
    assert(cmd != "exit"@ && cmd != "quit"@ && cmd != "help"@ && cmd != "use"@);
    assert(cmd != "collections"@);
}

proof fn lemma_body_keys_distinct()
    ensures
        "collection"@ != "data"@,
        "collection"@ != "filters"@,
        "collection"@ != "limit"@,
        "collection"@ != "document_id"@,
        "collection"@ != "vector"@,
        "collection"@ != "dimensions"@,
        "filters"@ != "limit"@,
        "document_id"@ != "data"@,
        "vector"@ != "limit"@,
        "vector"@ != "dimensions"@,
        "limit"@ != "dimensions"@,
{
    reveal_strlit("collection");
    reveal_strlit("data");
    reveal_strlit("filters");
    reveal_strlit("limit");
    reveal_strlit("document_id");
    reveal_strlit("vector");
    reveal_strlit("dimensions");
    assert("collection"@[0] != "dimensions"@[0]);
    assert("collection"@.len() == 10 && "data"@.len() == 4 && "filters"@.len() == 7);
    assert("limit"@.len() == 5 && "document_id"@.len() == 11 && "vector"@.len() == 6);
    assert("dimensions"@.len() == 10);
}

fn entry(key: &str, v: Json) -> (r: (String, Json))
    ensures
        r.0@ == key@,
        r.1 == v,
{
    (String::from_str(key), v)
}

fn uint(n: usize) -> (r: Json)
    ensures
        r == Json::Number(JsonNumber::PosInt(n as u64)),
{
    Json::Number(JsonNumber::PosInt(n as u64))
}

/// Where the vector literal at the start of `a` ends.
fn vector_end(a: &Vec<char>) -> (r: usize)
    ensures
        r == vector_end_from(a@, 0),
        r <= a@.len(),
{
    let mut i: usize = 0;
    while i < a.len() && a[i] != ']'
        invariant
            i <= a@.len(),
            vector_end_from(a@, 0) == vector_end_from(a@, i as int),
        decreases a@.len() - i,
    {
        i = i + 1;
    }
    if i < a.len() {
        i + 1
    } else {
        i
    }
}

fn is_number_array(v: &Json) -> (r: bool)
    ensures
        r == number_array(*v),
{
    match v {
        Json::Array(x) => {
            let mut i: usize = 0;
            while i < x.len()
                invariant
                    i <= x@.len(),
                    *v is Array && v->Array_0@ == x@,
                    forall|j: int| 0 <= j < i ==> (#[trigger] x@[j]) is Number,
                decreases x@.len() - i,
            {
                match &x[i] {
                    Json::Number(_) => {},
                    _ => {
                        return false;
                    },
                }
                i = i + 1;
            }
            true
        },
        _ => false,
    }
}

fn count_arg(s: &str, k: usize, dflt: usize) -> (r: usize)
    ensures
        r as nat == count_or(s@, k as nat, dflt as nat),
{
    let c = chars_of(s);
    match token(s, &c, k) {
        Some(t) => match parse_usize(t.as_str()) {
            Some(n) => n,
            None => dflt,
        },
        None => dflt,
    }
}

fn collection_body(c: &String) -> (r: Vec<(String, Json)>)
    ensures
        r@.len() == 1,
        entry_str(r@, 0, "collection"@, c@),
{
    let mut f: Vec<(String, Json)> = Vec::new();
    f.push(entry("collection", Json::Str(c.clone())));
    f
}

/// The `create` request for collection `c`, given what the document text parsed to.
pub fn create_action(c: &String, data: Option<Json>) -> (r: Action)
    ensures
        create_sent(c@, data, r),
{
    proof {
        lemma_body_keys_distinct();
    }
    match data {
        None => Action::Fail(CommandError::ValueParse),
        Some(d) => {
            let mut f = collection_body(c);
            f.push(entry("data", d));
            Action::Send(Request { msg_type: MSG_CREATE, body: Json::Object(f), kind: ReplyKind::Created })
        },
    }
}

/// The `query` request (a `count` when `is_query` is false) for collection `c`;
/// `empty` says no filter was given, else `parsed` is what the filter text parsed to.
pub fn query_action(c: &String, empty: bool, parsed: Option<Json>, is_query: bool) -> (r: Action)
    ensures
        query_sent(c@, empty, parsed, is_query, r),
{
    proof {
        lemma_body_keys_distinct();
    }
    let filters = if empty {
        empty_object()
    } else {
        match parsed {
            None => {
                return Action::Fail(CommandError::ValueParse);
            },
            Some(d) => d,
        }
    };
    let mut f = collection_body(c);
    f.push(entry("filters", filters));
    let limit: usize = if is_query { 100 } else { 0 };
    f.push(entry("limit", uint(limit)));
    let kind = if is_query { ReplyKind::Documents } else { ReplyKind::Count };
    Action::Send(Request { msg_type: MSG_QUERY, body: Json::Object(f), kind })
}

/// The `update` request for document `id` of collection `c`, given what the data text parsed to.
pub fn update_action(c: &String, id: String, data: Option<Json>) -> (r: Action)
    ensures
        update_sent(c@, id@, data, r),
{
    proof {
        lemma_body_keys_distinct();
    }
    match data {
        None => Action::Fail(CommandError::ValueParse),
        Some(d) => {
            let mut f = collection_body(c);
            f.push(entry("document_id", Json::Str(id.clone())));
            f.push(entry("data", d));
            Action::Send(Request { msg_type: MSG_UPDATE, body: Json::Object(f), kind: ReplyKind::Updated(id) })
        },
    }
}

/// The `vector_search` request for collection `c`, given what the vector text parsed to
/// and the text `after` it, which may give a limit and a number of dimensions.
pub fn vector_action(c: &String, vector: Option<Json>, after: &str) -> (r: Action)
    ensures
        vector_sent(c@, vector, after@, r),
{
    proof {
        lemma_body_keys_distinct();
    }
    let v = match vector {
        Some(v) => v,
        None => {
            return Action::Fail(CommandError::ValueParse);
        },
    };
    if !is_number_array(&v) {
        return Action::Fail(CommandError::ValueParse);
    }
    let n = match &v {
        Json::Array(x) => x.len(),
        _ => 0,
    };
    let limit = count_arg(after, 0, 10);
    let dims = count_arg(after, 1, n);
    let mut f = collection_body(c);
    f.push(entry("vector", v));
    f.push(entry("limit", uint(limit)));
    f.push(entry("dimensions", uint(dims)));
    Action::Send(Request { msg_type: MSG_VECTOR_SEARCH, body: Json::Object(f), kind: ReplyKind::Similar })
}

/// What command `cmd` of `line` asks for on collection `c`.
pub fn plan_collection(cmd: &str, line: &str, c: &String) -> (r: Action)
    requires
        needs_collection(cmd@),
    ensures
        collection_outcome(cmd@, line@, c@, r),
{
    let chars = chars_of(line);
    let chars = &chars;
    if str_eq(cmd, "create") {
        let a = rest_from(line, chars, 1);
        if a.unicode_len() == 0 {
            return Action::Fail(CommandError::MissingArgument(ArgHint::JsonData));
        }
        create_action(c, parse_json(a.as_str()))
    } else if str_eq(cmd, "query") || str_eq(cmd, "count") {
        let is_query = str_eq(cmd, "query");
        let a = rest_from(line, chars, 1);
        let empty = a.unicode_len() == 0;
        let parsed = if empty {
            None
        } else {
            parse_json(a.as_str())
        };
        query_action(c, empty, parsed, is_query)
    } else if str_eq(cmd, "update") {
        if token(line, chars, 2).is_none() {
            return Action::Fail(CommandError::MissingArgument(ArgHint::IdAndJson));
        }
        proof {
            lemma_has_tok_earlier(line@, 1);
        }
        let id = match token(line, chars, 1) {
            Some(t) => t,
            None => {
                return Action::Fail(CommandError::MissingArgument(ArgHint::IdAndJson));
            },
        };
        let a = rest_from(line, chars, 2);
        update_action(c, id, parse_json(a.as_str()))
    } else if str_eq(cmd, "delete") {
        proof {
            lemma_body_keys_distinct();
        }
        match token(line, chars, 1) {
            None => Action::Fail(CommandError::MissingArgument(ArgHint::DocumentId)),
            Some(id) => {
                if token(line, chars, 2).is_some() {
                    return Action::Fail(CommandError::ExtraArgument(ArgHint::DocumentId));
                }
                let mut f = collection_body(c);
                f.push(entry("document_id", Json::Str(id.clone())));
                Action::Send(Request { msg_type: MSG_DELETE, body: Json::Object(f), kind: ReplyKind::Deleted(id) })
            },
        }
    } else {
        let a = rest_from(line, chars, 1);
        let ac = chars_of(a.as_str());
        if ac.len() == 0 {
            return Action::Fail(CommandError::MissingArgument(ArgHint::Vector));
        }
        let e = vector_end(&ac);
        let vtext = String::from_str(a.as_str().substring_char(0, e));
        let after = String::from_str(a.as_str().substring_char(e, ac.len()));
        vector_action(c, parse_json(vtext.as_str()), after.as_str())
    }
}

impl Session {
    pub fn new() -> (r: Session)
        ensures
            r.current_collection is None,
    {
        Session { current_collection: None }
    }

    /// Carries out the command of `line` whose first word reads `cmd` in lower case.
    pub fn run_command(&mut self, cmd: &str, line: &str) -> (r: Action)
        ensures
            command_outcome(cmd@, line@, old(self).current_collection, r, final(self).current_collection),
    {
        let chars = chars_of(line);
        if str_eq(cmd, "exit") || str_eq(cmd, "quit") {
            Action::Exit
        } else if str_eq(cmd, "help") {
            Action::Help
        } else if str_eq(cmd, "use") {
            match token(line, &chars, 1) {
                None => Action::Fail(CommandError::MissingArgument(ArgHint::CollectionName)),
                Some(n) => {
                    if token(line, &chars, 2).is_some() {
                        return Action::Fail(CommandError::ExtraArgument(ArgHint::CollectionName));
                    }
                    self.current_collection = Some(n.clone());
                    Action::Switched(n)
                },
            }
        } else if str_eq(cmd, "collections") {
            if token(line, &chars, 1).is_some() {
                return Action::Fail(CommandError::ExtraArgument(ArgHint::NoArgument));
            }
            Action::Send(Request { msg_type: MSG_LIST_COLLECTIONS, body: Json::Object(Vec::new()), kind: ReplyKind::Collections })
        } else if str_eq(cmd, "create") || str_eq(cmd, "query") || str_eq(cmd, "update")
            || str_eq(cmd, "delete") || str_eq(cmd, "count") || str_eq(cmd, "vector_search") {
            match &self.current_collection {
                None => Action::Fail(CommandError::NoCollectionSelected),
                Some(c) => plan_collection(cmd, line, c),
            }
        } else {
            Action::Fail(CommandError::UnknownCommand(String::from_str(cmd)))
        }
    }

    /// Interprets one input line. Only `use` changes the selected collection, and a
    /// command that needs one fails with `NoCollectionSelected` when none is selected.
    pub fn handle_line(&mut self, line: &str) -> (r: Action)
        ensures
            line_outcome(line@, old(self).current_collection, r, final(self).current_collection),
    {
        let chars = chars_of(line);
        let first = match token(line, &chars, 0) {
            None => {
                return Action::Nothing;
            },
            Some(t) => t,
        };
        let cmd = lowercase(first.as_str());
        self.run_command(cmd.as_str(), line)
    }
}

} // verus!
