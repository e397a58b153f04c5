use vstd::prelude::*;

use crate::model::text::ends_with;
use crate::model::text::lex_le;
use crate::model::text::sorted_lex;
use crate::model::text::string_views;

verus! {

/// Where the databases are and who connects to them: the privileged role
/// that recreates the application database, and the application's own role.
#[derive(Clone, Debug)]
pub struct DbConfig {
    pub host: String,
    pub root_db: String,
    pub root_user: String,
    pub root_password: String,
    pub app_db: String,
    pub app_user: String,
    pub app_password: String,
    pub max_connections: u32,
    /// The directory that holds the setup scripts.
    pub sql_dir: String,
    /// The script that drops and recreates the application database.
    pub sql_recreate: String,
}

/// How to open one pool: where to connect, how many connections at most,
/// and how long a connection attempt may take.
#[derive(Clone, Debug, PartialEq, Eq)]
pub struct PoolSpec {
    pub url: String,
    pub max_connections: u32,
    pub connect_timeout_ms: u64,
}

/// The connection attempt gives up after this long: bootstrap fails fast.
pub const CONNECT_TIMEOUT_MS: u64 = 500;

/// The extension of a setup script.
pub const SQL_EXTENSION: &'static str = ".sql";

/// The address that the driver connects to.
pub open spec fn url_of(host: Seq<char>, db: Seq<char>, user: Seq<char>, password: Seq<char>) -> Seq<
    char,
> {
    "postgres://"@ + user + ":"@ + password + "@"@ + host + "/"@ + db
}

/// The address of database `db` on `host`, for `user` with `password`.
pub fn connection_url(host: &str, db: &str, user: &str, password: &str) -> (r: String)
    ensures
        r@ == url_of(host@, db@, user@, password@),
{
    let mut r = String::from_str("postgres://");
    r.append(user);
    r.append(":");
    r.append(password);
    r.append("@");
    r.append(host);
    r.append("/");
    r.append(db);
    r
}

impl PoolSpec {
    /// A pool of at most `max_connections` connections to `db`.
    pub fn new(host: &str, db: &str, user: &str, password: &str, max_connections: u32) -> (r: PoolSpec)
        requires
            max_connections > 0,
        ensures
            r.url@ == url_of(host@, db@, user@, password@),
            r.max_connections == max_connections,
            r.connect_timeout_ms == CONNECT_TIMEOUT_MS,
    {
        PoolSpec {
            url: connection_url(host, db, user, password),
            max_connections,
            connect_timeout_ms: CONNECT_TIMEOUT_MS,
        }
    }
}

impl DbConfig {
    /// A pool needs room for at least one connection.
    pub open spec fn wf(&self) -> bool {
        self.max_connections > 0
    }

    /// The settings of a local development database.
    pub fn dev() -> (r: DbConfig)
        ensures
            r.wf(),
            r.max_connections == 5,
    {
        DbConfig {
            host: String::from_str("localhost"),
            root_db: String::from_str("postgres"),
            root_user: String::from_str("postgres"),
            root_password: String::from_str("postgres"),
            app_db: String::from_str("app_db"),
            app_user: String::from_str("app_user"),
            app_password: String::from_str("app_password"),
            max_connections: 5,
            sql_dir: String::from_str("sql/"),
            sql_recreate: String::from_str("sql/00-recreate-db.sql"),
        }
    }

    /// The privileged pool, of one connection, to the administrative database.
    pub fn root_pool(&self) -> (r: PoolSpec)
        ensures
            r.url@ == url_of(self.host@, self.root_db@, self.root_user@, self.root_password@),
            r.max_connections == 1,
            r.connect_timeout_ms == CONNECT_TIMEOUT_MS,
    {
        PoolSpec::new(
            self.host.as_str(),
            self.root_db.as_str(),
            self.root_user.as_str(),
            self.root_password.as_str(),
            1,
        )
    }

    /// The application's pool to the application database.
    pub fn app_pool(&self) -> (r: PoolSpec)
        requires
            self.wf(),
        ensures
            r.url@ == url_of(self.host@, self.app_db@, self.app_user@, self.app_password@),
            r.max_connections == self.max_connections,
            r.connect_timeout_ms == CONNECT_TIMEOUT_MS,
    {
        PoolSpec::new(
            self.host.as_str(),
            self.app_db.as_str(),
            self.app_user.as_str(),
            self.app_password.as_str(),
            self.max_connections,
        )
    }
}

/// A file that the second bootstrap pass runs: a script, but not the one
/// that recreates the database.
pub open spec fn is_app_script(path: Seq<char>, recreate: Seq<char>) -> bool {
    SQL_EXTENSION@.len() <= path.len() && path.subrange(
        path.len() - SQL_EXTENSION@.len(),
        path.len() as int,
    ) == SQL_EXTENSION@ && path != recreate
}

/// `is_app_script` as a predicate on strings.
pub open spec fn app_script_filter(recreate: Seq<char>) -> spec_fn(String) -> bool {
    |s: String| is_app_script(s@, recreate)
}

/// Relies on `slice::sort` of std: it sorts ascending by the order of
/// `String`, which compares the UTF-8 bytes lexicographically (the order of
/// the characters), and keeps every element.
#[verifier::external_body]
fn sort_strings(v: &mut Vec<String>)
    ensures
        final(v)@.to_multiset() == old(v)@.to_multiset(),
        sorted_lex(string_views(final(v)@)),
{
    v.sort();
}

proof fn lemma_filter_count(s: Seq<String>, p: spec_fn(String) -> bool, x: String)
    ensures
        s.filter(p).to_multiset().count(x) == if p(x) {
            s.to_multiset().count(x)
        } else {
            0
        },
    decreases s.len(),
{
    reveal(Seq::filter);
    broadcast use vstd::seq_lib::group_to_multiset_ensures;

    if s.len() > 0 {
        lemma_filter_count(s.drop_last(), p, x);
        assert(s =~= s.drop_last().push(s.last()));
    }
}

/// The scripts of a directory listing that the second bootstrap pass runs,
/// in the order it runs them: by name, the scripts but the recreate one,
/// each as often as the listing holds it.
pub fn plan_scripts(paths: Vec<String>, recreate: &String) -> (r: Vec<String>)
    ensures
        sorted_lex(string_views(r@)),
        forall|x: String|
            #![trigger r@.to_multiset().count(x)]
            r@.to_multiset().count(x) == if is_app_script(x@, recreate@) {
                paths@.to_multiset().count(x)
            } else {
                0
            },
{
    let mut sorted = paths;
    sort_strings(&mut sorted);
    let ghost pred = app_script_filter(recreate@);
    let n = sorted.len();
    let mut r: Vec<String> = Vec::new();
    let mut i: usize = 0;
    proof {
        reveal(Seq::filter);
        assert(sorted@.subrange(0, 0) =~= Seq::<String>::empty());
    }
    while i < n
        invariant
            n == sorted@.len(),
            i <= n,
            pred == app_script_filter(recreate@),
            sorted_lex(string_views(sorted@)),
            r@ == sorted@.subrange(0, i as int).filter(pred),
            sorted_lex(string_views(r@)),
            forall|k: int, j: int|
                0 <= k < r@.len() && i <= j < n ==> lex_le(
                    #[trigger] string_views(r@)[k],
                    #[trigger] string_views(sorted@)[j],
                ),
        decreases n - i,
    {
        let script = ends_with(sorted[i].as_str(), SQL_EXTENSION);
        let same = sorted[i] == *recreate;
        let keep = script && !same;
        proof {
            reveal_strlit(".sql");
            reveal(Seq::filter);
            assert(sorted@.subrange(0, i + 1).drop_last() =~= sorted@.subrange(0, i as int));
            assert(sorted@.subrange(0, i + 1).last() == sorted@[i as int]);
            assert(keep == pred(sorted@[i as int]));
        }
        if keep {
            let ghost before = r@;
            r.push(sorted[i].clone());
            proof {
                assert(r@ =~= before.push(sorted@[i as int]));
                assert forall|a: int, b: int|
                    0 <= a < b < string_views(r@).len() implies lex_le(
                    #[trigger] string_views(r@)[a],
                    #[trigger] string_views(r@)[b],
                ) by {
                    if b == r@.len() - 1 {
                        assert(string_views(r@)[b] == string_views(sorted@)[i as int]);
                        assert(string_views(r@)[a] == string_views(before)[a]);
                    } else {
                        assert(string_views(r@)[a] == string_views(before)[a]);
                        assert(string_views(r@)[b] == string_views(before)[b]);
                    }
                }
                assert forall|k: int, j: int|
                    0 <= k < r@.len() && i + 1 <= j < n implies lex_le(
                    #[trigger] string_views(r@)[k],
                    #[trigger] string_views(sorted@)[j],
                ) by {
                    if k == r@.len() - 1 {
                        assert(string_views(r@)[k] == string_views(sorted@)[i as int]);
                    } else {
                        assert(string_views(r@)[k] == string_views(before)[k]);
                    }
                }
            }
        }
        i = i + 1;
    }
    proof {
        assert(sorted@.subrange(0, n as int) =~= sorted@);
        assert forall|x: String|
            #![trigger r@.to_multiset().count(x)]
            r@.to_multiset().count(x) == if is_app_script(x@, recreate@) {
                paths@.to_multiset().count(x)
            } else {
                0
            } by {
            lemma_filter_count(sorted@, pred, x);
        }
    }
    r
}

proof fn lemma_lex_antisymmetric(a: Seq<char>, b: Seq<char>)
    requires
        lex_le(a, b),
        lex_le(b, a),
    ensures
        a == b,
    decreases a.len(),
{
    if a.len() == 0 {
        assert(a =~= b);
    } else {
        assert(a[0] == b[0]);
        lemma_lex_antisymmetric(a.drop_first(), b.drop_first());
        assert forall|i: int| 0 <= i < a.len() implies a[i] == b[i] by {
            if i > 0 {
                assert(a[i] == a.drop_first()[i - 1]);
                assert(b[i] == b.drop_first()[i - 1]);
            }
        }
        assert(a =~= b);
    }
}

proof fn lemma_sorted_same_elements(a: Seq<String>, b: Seq<String>)
    requires
        sorted_lex(string_views(a)),
        sorted_lex(string_views(b)),
        a.to_multiset() == b.to_multiset(),
    ensures
        string_views(a) == string_views(b),
    decreases a.len(),
{
    broadcast use vstd::seq_lib::group_to_multiset_ensures;

    assert(a.len() == a.to_multiset().len());
    assert(b.len() == b.to_multiset().len());
    if a.len() == 0 {
        assert(string_views(a) =~= string_views(b));
    } else {
        let x = a[0];
        assert(a.contains(x));
        assert(b.to_multiset().count(x) > 0);
        let j = choose|j: int| 0 <= j < b.len() && b[j] == x;
        let y = b[0];
        assert(b.contains(y));
        assert(a.to_multiset().count(y) > 0);
        let k = choose|k: int| 0 <= k < a.len() && a[k] == y;
        if j > 0 {
            assert(lex_le(string_views(b)[0], string_views(b)[j]));
        }
        if k > 0 {
            assert(lex_le(string_views(a)[0], string_views(a)[k]));
            lemma_lex_antisymmetric(x@, y@);
        }
        assert(x@ == y@);
        assert forall|m: int| 0 <= m <= j implies #[trigger] b[m]@ == x@ by {
            if 0 < m {
                assert(lex_le(string_views(b)[0], string_views(b)[m]));
            }
            if m < j {
                assert(lex_le(string_views(b)[m], string_views(b)[j]));
            }
            if 0 < m < j {
                lemma_lex_antisymmetric(b[m]@, x@);
            } else if 0 < m {
                assert(b[m] == x);
            }
        }
        let a1 = a.drop_first();
        let b1 = b.remove(j);
        assert(a1 =~= a.remove(0));
        assert(a1.to_multiset() == a.to_multiset().remove(x));
        assert(b1.to_multiset() == b.to_multiset().remove(b[j]));
        assert forall|p: int, q: int|
            0 <= p < q < string_views(b1).len() implies lex_le(
            #[trigger] string_views(b1)[p],
            #[trigger] string_views(b1)[q],
        ) by {
            let p0 = if p < j { p } else { p + 1 };
            let q0 = if q < j { q } else { q + 1 };
            assert(string_views(b1)[p] == string_views(b)[p0]);
            assert(string_views(b1)[q] == string_views(b)[q0]);
        }
        assert forall|p: int, q: int|
            0 <= p < q < string_views(a1).len() implies lex_le(
            #[trigger] string_views(a1)[p],
            #[trigger] string_views(a1)[q],
        ) by {
            assert(string_views(a1)[p] == string_views(a)[p + 1]);
            assert(string_views(a1)[q] == string_views(a)[q + 1]);
        }
        lemma_sorted_same_elements(a1, b1);
        assert forall|i: int| 0 <= i < a.len() implies string_views(a)[i] == string_views(b)[i] by {
            if i == 0 {
            } else if i <= j {
                assert(string_views(a)[i] == string_views(a1)[i - 1]);
                assert(string_views(b1)[i - 1] == b[i - 1]@);
            } else {
                assert(string_views(a)[i] == string_views(a1)[i - 1]);
                assert(string_views(b1)[i - 1] == b[i]@);
            }
        }
        assert(string_views(a) =~= string_views(b));
    }
}

/// Planning twice on one directory listing runs the same scripts in the same
/// order, and never the recreate script.
pub proof fn lemma_plan_is_deterministic(
    paths: Seq<String>,
    recreate: Seq<char>,
    r1: Seq<String>,
    r2: Seq<String>,
)
    requires
        sorted_lex(string_views(r1)),
        sorted_lex(string_views(r2)),
        forall|x: String|
            #![trigger r1.to_multiset().count(x)]
            r1.to_multiset().count(x) == if is_app_script(x@, recreate) {
                paths.to_multiset().count(x)
            } else {
                0
            },
        forall|x: String|
            #![trigger r2.to_multiset().count(x)]
            r2.to_multiset().count(x) == if is_app_script(x@, recreate) {
                paths.to_multiset().count(x)
            } else {
                0
            },
    ensures
        string_views(r1) == string_views(r2),
        forall|i: int| 0 <= i < r1.len() ==> is_app_script(#[trigger] r1[i]@, recreate),
{
    broadcast use vstd::seq_lib::group_to_multiset_ensures;

    assert(r1.to_multiset() =~= r2.to_multiset());
    lemma_sorted_same_elements(r1, r2);
    assert forall|i: int| 0 <= i < r1.len() implies is_app_script(#[trigger] r1[i]@, recreate) by {
        assert(r1.contains(r1[i]));
        assert(r1.to_multiset().count(r1[i]) > 0);
    }
}

} // verus!
