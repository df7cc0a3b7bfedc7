use vstd::prelude::*;
use vstd::string::StringExecFns;

use crate::port::{normalize_port, port_value, FieldValue, JsonField};

verus! {

/// One remote-access target of an environment.
pub struct Server {
    pub username: String,
    /// The host, written `server` in environment files.
    pub server: String,
    pub port: i64,
}

impl Server {
    pub fn new(username: String, server: String, port: i64) -> (r: Server)
        ensures
            r.username == username,
            r.server == server,
            r.port == port,
    {
        Server { username, server, port }
    }
}

/// The three fields of one record under `databases`, as the document holds them.
pub struct RecordFields {
    pub username: JsonField,
    pub server: JsonField,
    pub port: JsonField,
}

/// The plain values of a record's fields.
pub struct RecordView {
    pub username: FieldValue,
    pub server: FieldValue,
    pub port: FieldValue,
}

impl View for RecordFields {
    type V = RecordView;

    open spec fn view(&self) -> RecordView {
        RecordView { username: self.username@, server: self.server@, port: self.port@ }
    }
}

/// Why an environment file gives no servers.
#[derive(Debug, PartialEq, Eq)]
pub enum ParseError {
    /// The text is not one JSON document.
    InvalidJson,
    /// The document has no `databases` object.
    MissingDatabases,
    /// The named record has no string `username`.
    MissingUsername(String),
    /// The named record has no string `server`.
    MissingHost(String),
}

/// The servers of one environment, in the order the file declares them.
pub struct Environment {
    /// The record names, shown to the operator.
    pub names: Vec<String>,
    /// The record under each name, at the same index.
    pub servers: Vec<Server>,
}

impl Environment {
    pub open spec fn wf(&self) -> bool {
        self.names@.len() == self.servers@.len()
    }

    pub fn len(&self) -> (r: usize)
        requires
            self.wf(),
        ensures
            r == self.names@.len(),
    {
        self.names.len()
    }
}

/// A record is usable when both its user and its host are strings.
pub open spec fn record_ok(f: RecordView) -> bool {
    f.username is Text && f.server is Text
}

/// `s` is the server that the fields of a usable record describe.
pub open spec fn describes(s: Server, f: RecordView) -> bool {
    &&& s.username@ == f.username->Text_0
    &&& s.server@ == f.server->Text_0
    &&& s.port == port_value(f.port)
}

/// `e` is the error that an unusable record named `name` gives.
pub open spec fn record_error(e: ParseError, name: Seq<char>, f: RecordView) -> bool {
    if !(f.username is Text) {
        e is MissingUsername && e->MissingUsername_0@ == name
    } else {
        e is MissingHost && e->MissingHost_0@ == name
    }
}

/// The records with names and fields given by their plain values.
pub open spec fn records_view(v: Seq<(String, RecordFields)>) -> Seq<(Seq<char>, RecordView)> {
    v.map_values(|x: (String, RecordFields)| (x.0@, x.1@))
}

/// `r` is what the records `recs` build, in order: every server when all records are
/// usable, else the error of the first unusable one.
pub open spec fn built_from(r: Result<Environment, ParseError>, recs: Seq<(Seq<char>, RecordView)>) -> bool {
    &&& r is Ok <==> forall|i: int| 0 <= i < recs.len() ==> record_ok(#[trigger] recs[i].1)
    &&& r is Ok ==> {
        let env = r->Ok_0;
        &&& env.wf()
        &&& env.names@.len() == recs.len()
        &&& forall|i: int|
            0 <= i < recs.len() ==> {
                &&& #[trigger] env.names@[i]@ == recs[i].0
                &&& describes(env.servers@[i], recs[i].1)
            }
    }
    &&& r is Err ==> exists|k: int|
        0 <= k < recs.len() && !record_ok(#[trigger] recs[k].1) && (forall|i: int|
            0 <= i < k ==> record_ok(#[trigger] recs[i].1)) && record_error(
            r->Err_0,
            recs[k].0,
            recs[k].1,
        )
}

/// Builds the server that the record `name` describes, or says which field it lacks.
pub fn server_from_fields(name: &String, fields: &RecordFields) -> (r: Result<Server, ParseError>)
    ensures
        r is Ok <==> record_ok(fields@),
        r is Ok ==> describes(r->Ok_0, fields@),
        r is Err ==> record_error(r->Err_0, name@, fields@),
{
    let username = match &fields.username {
        JsonField::Text(u) => u.clone(),
        _ => return Err(ParseError::MissingUsername(name.clone())),
    };
    let server = match &fields.server {
        JsonField::Text(h) => h.clone(),
        _ => return Err(ParseError::MissingHost(name.clone())),
    };
    Ok(Server::new(username, server, normalize_port(&fields.port)))
}

/// Builds the environment from its records in order; the first unusable record
/// fails the whole environment.
pub fn environment_from_records(records: &Vec<(String, RecordFields)>) -> (r: Result<
    Environment,
    ParseError,
>)
    ensures
        built_from(r, records_view(records@)),
{
    let mut names: Vec<String> = Vec::new();
    let mut servers: Vec<Server> = Vec::new();
    let ghost recs = records_view(records@);
    let mut i: usize = 0;
    while i < records.len()
        invariant
            i <= records@.len(),
            names@.len() == i,
            servers@.len() == i,
            recs == records_view(records@),
            forall|j: int| 0 <= j < i ==> record_ok(#[trigger] recs[j].1),
            forall|j: int|
                0 <= j < i ==> {
                    &&& #[trigger] names@[j]@ == recs[j].0
                    &&& describes(servers@[j], recs[j].1)
                },
        decreases records@.len() - i,
    {
        let (name, fields) = &records[i];
        assert(recs[i as int] == (name@, fields@));
        match server_from_fields(name, fields) {
            Ok(s) => {
                names.push(name.clone());
                servers.push(s);
            },
            Err(e) => {
                assert(record_error(e, recs[i as int].0, recs[i as int].1));
                return Err(e);
            },
        }
        i = i + 1;
    }
    Ok(Environment { names, servers })
}

/// The file that holds environment `name` under the directory `root`, which
/// ends with its separator.
pub fn environment_file_path(root: &str, name: &str) -> (r: String)
    ensures
        r@ == root@ + name@ + ".json"@,
{
    let mut path = String::from_str(root);
    path.append(name);
    path.append(".json");
    path
}

} // verus!
