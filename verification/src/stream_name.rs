//! Names of destination streams.

use vstd::prelude::*;
use vstd::string::StringExecFns;

verus! {

/// Id of the stream that every table has without creating one.
pub const DEFAULT_STREAM: &'static str = "_default";

/// Names the stream of a table that rows are appended to.
#[derive(Clone, Debug, PartialEq, Eq)]
pub struct StreamName {
    /// Name of the project.
    project: String,
    /// Name of the dataset.
    dataset: String,
    /// Name of the table.
    table: String,
    /// Name of the stream.
    stream: String,
}

/// A `StreamName` as a mathematical value.
pub struct StreamNameView {
    pub project: Seq<char>,
    pub dataset: Seq<char>,
    pub table: Seq<char>,
    pub stream: Seq<char>,
}

impl StreamNameView {
    /// The path under which the service knows the stream:
    /// `projects/{project}/datasets/{dataset}/tables/{table}/streams/{stream}`.
    pub open spec fn path(self) -> Seq<char> {
        "projects/"@ + self.project + "/datasets/"@ + self.dataset + "/tables/"@ + self.table
            + "/streams/"@ + self.stream
    }
}

impl View for StreamName {
    type V = StreamNameView;

    closed spec fn view(&self) -> StreamNameView {
        StreamNameView {
            project: self.project@,
            dataset: self.dataset@,
            table: self.table@,
            stream: self.stream@,
        }
    }
}

impl StreamName {
    /// Names the stream `stream` of a table.
    pub fn new(project: String, dataset: String, table: String, stream: String) -> (name:
        StreamName)
        ensures
            name@ == (StreamNameView {
                project: project@,
                dataset: dataset@,
                table: table@,
                stream: stream@,
            }),
    {
        StreamName { project, dataset, table, stream }
    }

    /// Names the default stream of a table.
    pub fn new_default(project: String, dataset: String, table: String) -> (name: StreamName)
        ensures
            name@ == (StreamNameView {
                project: project@,
                dataset: dataset@,
                table: table@,
                stream: DEFAULT_STREAM@,
            }),
    {
        StreamName { project, dataset, table, stream: DEFAULT_STREAM.to_string() }
    }

    /// Renders the name as the path that the service expects.
    pub fn to_string(&self) -> (path: String)
        ensures
            path@ == self@.path(),
    {
        let mut path = String::from_str("projects/");
        path.append(self.project.as_str());
        path.append("/datasets/");
        path.append(self.dataset.as_str());
        path.append("/tables/");
        path.append(self.table.as_str());
        path.append("/streams/");
        path.append(self.stream.as_str());
        path
    }
}

/// The path of a stream is made of its four names, each behind its heading:
/// `projects/{project}/datasets/{dataset}/tables/{table}/streams/{stream}`.
/// It holds everything that the names hold, and 36 characters more.
pub proof fn lemma_stream_path(
    project: Seq<char>,
    dataset: Seq<char>,
    table: Seq<char>,
    stream: Seq<char>,
)
    ensures
        (StreamNameView { project, dataset, table, stream }).path() == "projects/"@ + project
            + "/datasets/"@ + dataset + "/tables/"@ + table + "/streams/"@ + stream,
        (StreamNameView { project, dataset, table, stream }).path().len() == 36 + project.len()
            + dataset.len() + table.len() + stream.len(),
{
    reveal_strlit("projects/");
    reveal_strlit("/datasets/");
    reveal_strlit("/tables/");
    reveal_strlit("/streams/");
}

/// The path of a table's default stream ends in `/streams/_default`.
pub proof fn lemma_default_stream_path(project: Seq<char>, dataset: Seq<char>, table: Seq<char>)
    ensures
        (StreamNameView { project, dataset, table, stream: DEFAULT_STREAM@ }).path()
            == "projects/"@ + project + "/datasets/"@ + dataset + "/tables/"@ + table
            + "/streams/_default"@,
{
    reveal_strlit("/streams/");
    reveal_strlit("_default");
    reveal_strlit("/streams/_default");
    assert("/streams/"@ + "_default"@ =~= "/streams/_default"@);
    let head = "projects/"@ + project + "/datasets/"@ + dataset + "/tables/"@ + table;
    assert(head + "/streams/"@ + "_default"@ =~= head + ("/streams/"@ + "_default"@));
}

} // verus!
