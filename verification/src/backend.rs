//! The database backends: how each is chosen and what sets it apart.

use crate::read_builder::ManyRelatedRecordsStrategy;
use crate::text::same_text;
use vstd::prelude::*;
use vstd::string::StringExecFns;

verus! {

/// The databases that the engine talks to.
#[derive(Clone, Copy, Debug, PartialEq, Eq, Structural)]
pub enum Backend {
    PostgreSql,
    Mysql,
    Sqlite,
}

impl Backend {
    /// The backend that a connector type names.
    pub open spec fn of_connector_type(connector_type: Seq<char>) -> Option<Backend> {
        if connector_type == "postgresql"@ {
            Some(Backend::PostgreSql)
        } else if connector_type == "mysql"@ {
            Some(Backend::Mysql)
        } else if connector_type == "sqlite"@ {
            Some(Backend::Sqlite)
        } else {
            None
        }
    }

    /// The backend that a connector type names: `postgresql`, `mysql` or
    /// `sqlite`.
    pub fn from_connector_type(connector_type: &str) -> (r: Option<Backend>)
        ensures
            r == Self::of_connector_type(connector_type@),
    {
        if same_text(connector_type, "postgresql") {
            Some(Backend::PostgreSql)
        } else if same_text(connector_type, "mysql") {
            Some(Backend::Mysql)
        } else if same_text(connector_type, "sqlite") {
            Some(Backend::Sqlite)
        } else {
            None
        }
    }

    /// How the backend selects the related records of many parents when
    /// the query pages: MySQL unites one select for each parent, the others
    /// count rows.
    pub fn many_related_records_strategy(self) -> (r: ManyRelatedRecordsStrategy)
        ensures
            r == match self {
                Backend::Mysql => ManyRelatedRecordsStrategy::UnionAll,
                _ => ManyRelatedRecordsStrategy::RowNumber,
            },
    {
        match self {
            Backend::Mysql => ManyRelatedRecordsStrategy::UnionAll,
            Backend::PostgreSql => ManyRelatedRecordsStrategy::RowNumber,
            Backend::Sqlite => ManyRelatedRecordsStrategy::RowNumber,
        }
    }

    /// Whether the named database has to be attached to a connection when
    /// it is checked out.
    pub fn attaches_database(self) -> (r: bool)
        ensures
            r == (self == Backend::Sqlite),
    {
        match self {
            Backend::Sqlite => true,
            _ => false,
        }
    }

    /// The statements that are run on a connection when it is checked out.
    pub open spec fn checkout_statement_views(self) -> Seq<Seq<char>> {
        match self {
            Backend::Sqlite => seq!["PRAGMA foreign_keys = ON"@],
            _ => Seq::empty(),
        }
    }

    /// The statements that are run on a connection when it is checked out:
    /// SQLite is told to enforce foreign keys.
    pub fn checkout_statements(self) -> (r: Vec<String>)
        ensures
            r.deep_view() == self.checkout_statement_views(),
    {
        let mut v: Vec<String> = Vec::new();
        match self {
            Backend::Sqlite => {
                v.push(String::from_str("PRAGMA foreign_keys = ON"));
            },
            _ => {
            },
        }
        v
    }
}

/// Whether `prefix` stands at the start of `s`.
pub open spec fn is_prefix(prefix: Seq<char>, s: Seq<char>) -> bool {
    prefix.len() <= s.len() && s.subrange(0, prefix.len() as int) == prefix
}

/// Whether `s` starts with `prefix`.
pub fn starts_with(s: &str, prefix: &str) -> (r: bool)
    ensures
        r == is_prefix(prefix@, s@),
{
    let n = prefix.unicode_len();
    if s.unicode_len() < n {
        return false;
    }
    let mut i: usize = 0;
    while i < n
        invariant
            0 <= i <= n,
            n == prefix@.len(),
            n <= s@.len(),
            s@.subrange(0, i as int) == prefix@.subrange(0, i as int),
        decreases n - i,
    {
        if s.get_char(i) != prefix.get_char(i) {
            return false;
        }
        i = i + 1;
    }
    assert(prefix@.subrange(0, n as int) =~= prefix@);
    true
}

/// The connectors that tests are written for.
pub open spec fn connector_names() -> Seq<Seq<char>> {
    seq!["postgres"@, "mysql"@, "mysql_8"@, "sqlite"@]
}

/// The connectors among the first `n` that a test runs on: all but those
/// whose name starts with what the test ignores.
pub open spec fn connectors_upto(ignore: Option<Seq<char>>, n: int) -> Seq<Seq<char>> {
    crate::seqs::concat_range(
        n,
        |i: int|
            match ignore {
                Some(p) => if is_prefix(p, connector_names()[i]) {
                    Seq::empty()
                } else {
                    seq![connector_names()[i]]
                },
                None => seq![connector_names()[i]],
            },
    )
}

/// What a test of each connector can be told.
pub struct TestEachConnectorArgs {
    /// The connectors to leave out: those whose name starts with this.
    pub ignore: Option<String>,
}

impl TestEachConnectorArgs {
    /// The connectors that the test runs on: all but those whose name
    /// starts with what the test ignores.
    pub fn connectors_to_test(&self) -> (r: Vec<&'static str>)
        ensures
            r.deep_view() == connectors_upto(self.ignore.deep_view(), 4),
    {
        let mut names: Vec<&'static str> = Vec::new();
        names.push("postgres");
        names.push("mysql");
        names.push("mysql_8");
        names.push("sqlite");
        let mut out: Vec<&'static str> = Vec::new();
        let mut i: usize = 0;
        while i < 4
            invariant
                0 <= i <= 4,
                names@.len() == 4,
                names.deep_view() == connector_names(),
                out.deep_view() == connectors_upto(self.ignore.deep_view(), i as int),
            decreases 4 - i,
        {
            let name = names[i];
            let skip = match &self.ignore {
                Some(p) => starts_with(name, p.as_str()),
                None => false,
            };
            if !skip {
                out.push(name);
            }
            i = i + 1;
        }
        out
    }
}

/// The name of the test of one connector: the name of the test function,
/// `_on_`, and the connector.
pub fn connector_test_fn_name(test_fn_name: &str, connector: &str) -> (r: String)
    ensures
        r@ == test_fn_name@ + "_on_"@ + connector@,
{
    crate::text::concat3(test_fn_name, "_on_", connector)
}

/// The name of the function that makes the test API of a connector: the
/// connector and `_test_api`.
pub fn connector_api_factory_name(connector: &str) -> (r: String)
    ensures
        r@ == connector@ + "_test_api"@,
{
    crate::text::concat2(connector, "_test_api")
}

} // verus!
