//! Settings: which database the migrations go to, and where they are kept.

use vstd::prelude::*;
use crate::errors::{Error, ErrorKind};
use crate::paths::{is_absolute, path_is_absolute};
use crate::source::text_of;

verus! {

/// The kind of database that migrations are applied to.
#[derive(Clone, Copy, Debug, PartialEq, Eq, Structural)]
pub enum DbKind {
    Sqlite,
    Postgres,
}

impl DbKind {
    /// The name of the kind, as settings spell it.
    pub open spec fn name(self) -> Seq<char> {
        match self {
            DbKind::Sqlite => "sqlite"@,
            DbKind::Postgres => "postgres"@,
        }
    }

    /// The kind that a name stands for, if it stands for one.
    pub open spec fn named(name: Seq<char>) -> Option<DbKind> {
        if name == "sqlite"@ {
            Some(DbKind::Sqlite)
        } else if name == "postgres"@ {
            Some(DbKind::Postgres)
        } else {
            None
        }
    }

    /// The kind that `s` names. Fails with `InvalidDbKind` where it names none.
    pub fn from(s: &str) -> (result: Result<DbKind, Error>)
        ensures
            match result {
                Ok(kind) => DbKind::named(s@) == Some(kind),
                Err(e) => DbKind::named(s@) is None && e.kind_of() == ErrorKind::InvalidDbKind,
            },
    {
        let name = String::from_str(s);
        if name == String::from_str("sqlite") {
            Ok(DbKind::Sqlite)
        } else if name == String::from_str("postgres") {
            Ok(DbKind::Postgres)
        } else {
            Err(Error::InvalidDbKind(String::from_str("Invalid Database Kind: ").concat(s)))
        }
    }

    /// The name of the kind, as settings spell it.
    pub fn to_string(&self) -> (name: String)
        ensures
            name@ == self.name(),
    {
        match self {
            DbKind::Sqlite => String::from_str("sqlite"),
            DbKind::Postgres => String::from_str("postgres"),
        }
    }
}

/// The character that shows a digit.
pub open spec fn digit_char(digit: nat) -> char {
    if digit == 0 {
        '0'
    } else if digit == 1 {
        '1'
    } else if digit == 2 {
        '2'
    } else if digit == 3 {
        '3'
    } else if digit == 4 {
        '4'
    } else if digit == 5 {
        '5'
    } else if digit == 6 {
        '6'
    } else if digit == 7 {
        '7'
    } else if digit == 8 {
        '8'
    } else {
        '9'
    }
}

/// A number in decimal digits, without leading zeros.
pub open spec fn decimal(n: nat) -> Seq<char>
    decreases n,
{
    if n < 10 {
        seq![digit_char(n)]
    } else {
        decimal(n / 10).push(digit_char(n % 10))
    }
}

fn digit_text(digit: u16) -> (text: &'static str)
    requires
        digit < 10,
    ensures
        text@ == seq![digit_char(digit as nat)],
{
    proof {
        reveal_strlit("0");
        reveal_strlit("1");
        reveal_strlit("2");
        reveal_strlit("3");
        reveal_strlit("4");
        reveal_strlit("5");
        reveal_strlit("6");
        reveal_strlit("7");
        reveal_strlit("8");
        reveal_strlit("9");
    }
    let text = if digit == 0 {
        "0"
    } else if digit == 1 {
        "1"
    } else if digit == 2 {
        "2"
    } else if digit == 3 {
        "3"
    } else if digit == 4 {
        "4"
    } else if digit == 5 {
        "5"
    } else if digit == 6 {
        "6"
    } else if digit == 7 {
        "7"
    } else if digit == 8 {
        "8"
    } else {
        "9"
    };
    assert(text@ =~= seq![digit_char(digit as nat)]);
    text
}

/// Writes a number in decimal digits.
pub fn decimal_text(n: u16) -> (text: String)
    ensures
        text@ == decimal(n as nat),
    decreases n,
{
    if n < 10 {
        String::from_str(digit_text(n))
    } else {
        let front = decimal_text(n / 10);
        let last = digit_text(n % 10);
        let text = front.concat(last);
        assert(text@ =~= decimal((n / 10) as nat).push(digit_char((n % 10) as nat)));
        text
    }
}

/// The mathematical value of a list of named parameters.
pub type ParamsView = Seq<(Seq<char>, Seq<char>)>;

/// Whether `i` is the place of the parameter with the given name.
pub open spec fn is_param_place(params: ParamsView, name: Seq<char>, i: int) -> bool {
    &&& 0 <= i < params.len()
    &&& params[i].0 == name
    &&& forall|j: int| 0 <= j < i ==> (#[trigger] params[j]).0 != name
}

/// The parameters after one was set: a parameter of that name takes the new
/// value and keeps its place, a new name goes behind the others.
pub open spec fn set_param(params: ParamsView, name: Seq<char>, value: Seq<char>) -> ParamsView {
    if exists|i: int| is_param_place(params, name, i) {
        let i = choose|i: int| is_param_place(params, name, i);
        params.update(i, (name, value))
    } else {
        params.push((name, value))
    }
}

/// The parameters that setting each of `pairs` in turn leaves.
pub open spec fn params_of(pairs: ParamsView) -> ParamsView
    decreases pairs.len(),
{
    if pairs.len() == 0 {
        Seq::empty()
    } else {
        set_param(params_of(pairs.drop_last()), pairs.last().0, pairs.last().1)
    }
}

/// The values of a list of pairs of strings.
pub open spec fn pair_views(pairs: Seq<(String, String)>) -> ParamsView {
    Seq::new(pairs.len(), |i: int| (pairs[i].0@, pairs[i].1@))
}

/// The values of a list of pairs of string slices.
pub open spec fn slice_pair_views(pairs: Seq<(&str, &str)>) -> ParamsView {
    Seq::new(pairs.len(), |i: int| (pairs[i].0@, pairs[i].1@))
}

/// The settings of a project.
#[derive(Debug)]
pub struct Settings {
    database_type: String,
    migration_location: Option<String>,
    database_path: Option<String>,
    database_name: Option<String>,
    database_host: Option<String>,
    database_port: Option<String>,
    database_user: Option<String>,
    database_password: Option<String>,
    database_params: Option<Vec<(String, String)>>,
}

/// The mathematical value of [`Settings`].
pub struct SettingsView {
    pub database_type: Seq<char>,
    pub migration_location: Option<Seq<char>>,
    pub database_path: Option<Seq<char>>,
    pub database_name: Option<Seq<char>>,
    pub database_host: Option<Seq<char>>,
    pub database_port: Option<Seq<char>>,
    pub database_user: Option<Seq<char>>,
    pub database_password: Option<Seq<char>>,
    pub database_params: Option<ParamsView>,
}

impl View for Settings {
    type V = SettingsView;

    closed spec fn view(&self) -> SettingsView {
        SettingsView {
            database_type: self.database_type@,
            migration_location: text_of(self.migration_location),
            database_path: text_of(self.database_path),
            database_name: text_of(self.database_name),
            database_host: text_of(self.database_host),
            database_port: text_of(self.database_port),
            database_user: text_of(self.database_user),
            database_password: text_of(self.database_password),
            database_params: match self.database_params {
                Some(params) => Some(pair_views(params@)),
                None => None,
            },
        }
    }
}

fn copy_text(text: &Option<String>) -> (copy: Option<String>)
    ensures
        text_of(copy) == text_of(*text),
{
    match text {
        Some(text) => Some(text.clone()),
        None => None,
    }
}

fn copy_pairs(pairs: &Vec<(String, String)>) -> (copy: Vec<(String, String)>)
    ensures
        pair_views(copy@) == pair_views(pairs@),
{
    let mut copy: Vec<(String, String)> = Vec::new();
    let mut k: usize = 0;
    while k < pairs.len()
        invariant
            k <= pairs@.len(),
            copy@.len() == k,
            forall|i: int|
                0 <= i < k ==> (#[trigger] copy@[i]).0@ == pairs@[i].0@ && copy@[i].1@
                    == pairs@[i].1@,
        decreases pairs@.len() - k,
    {
        copy.push((pairs[k].0.clone(), pairs[k].1.clone()));
        k += 1;
    }
    assert(pair_views(copy@) =~= pair_views(pairs@));
    copy
}

impl Clone for Settings {
    fn clone(&self) -> (copy: Settings)
        ensures
            copy@ == self@,
    {
        Settings {
            database_type: self.database_type.clone(),
            migration_location: copy_text(&self.migration_location),
            database_path: copy_text(&self.database_path),
            database_name: copy_text(&self.database_name),
            database_host: copy_text(&self.database_host),
            database_port: copy_text(&self.database_port),
            database_user: copy_text(&self.database_user),
            database_password: copy_text(&self.database_password),
            database_params: match &self.database_params {
                Some(pairs) => Some(copy_pairs(pairs)),
                None => None,
            },
        }
    }
}

fn set_pair(params: &mut Vec<(String, String)>, name: &str, value: &str)
    ensures
        pair_views(final(params)@) == set_param(pair_views(old(params)@), name@, value@),
{
    let ghost before = pair_views(params@);
    let mut i: usize = 0;
    while i < params.len()
        invariant
            i <= params@.len(),
            before == pair_views(params@),
            before == pair_views(old(params)@),
            forall|j: int| 0 <= j < i ==> (#[trigger] before[j]).0 != name@,
        decreases params@.len() - i,
    {
        if params[i].0 == String::from_str(name) {
            proof {
                assert(before[i as int].0 == name@);
                assert(is_param_place(before, name@, i as int));
                let chosen = choose|j: int| is_param_place(before, name@, j);
                if chosen < i {
                    assert(before[chosen].0 == name@);
                }
                assert(chosen == i);
            }
            let _ = params.remove(i);
            params.insert(i, (String::from_str(name), String::from_str(value)));
            assert(pair_views(params@) =~= before.update(i as int, (name@, value@)));
            return ;
        }
        i += 1;
    }
    proof {
        assert forall|k: int| !is_param_place(before, name@, k) by {
            if 0 <= k < before.len() {
                assert(before[k].0 != name@);
            }
        }
    }
    params.push((String::from_str(name), String::from_str(value)));
    assert(pair_views(params@) =~= before.push((name@, value@)));
}

impl Settings {
    /// Settings for a database of the given kind, with nothing else set.
    pub fn with_db_type(db_type: DbKind) -> (settings: Settings)
        ensures
            settings@ == (SettingsView {
                database_type: db_type.name(),
                migration_location: None,
                database_path: None,
                database_name: None,
                database_host: None,
                database_port: None,
                database_user: None,
                database_password: None,
                database_params: None,
            }),
    {
        Settings {
            database_type: db_type.to_string(),
            migration_location: None,
            database_path: None,
            database_name: None,
            database_host: None,
            database_port: None,
            database_user: None,
            database_password: None,
            database_params: None,
        }
    }

    /// Settings as a settings file gives them: each value as it stands there.
    pub fn from_values(
        database_type: String,
        migration_location: Option<String>,
        database_path: Option<String>,
        database_name: Option<String>,
        database_host: Option<String>,
        database_port: Option<String>,
        database_user: Option<String>,
        database_password: Option<String>,
        database_params: Option<Vec<(String, String)>>,
    ) -> (settings: Settings)
        ensures
            settings@ == (SettingsView {
                database_type: database_type@,
                migration_location: text_of(migration_location),
                database_path: text_of(database_path),
                database_name: text_of(database_name),
                database_host: text_of(database_host),
                database_port: text_of(database_port),
                database_user: text_of(database_user),
                database_password: text_of(database_password),
                database_params: match database_params {
                    Some(params) => Some(pair_views(params@)),
                    None => None,
                },
            }),
    {
        Settings {
            database_type,
            migration_location,
            database_path,
            database_name,
            database_host,
            database_port,
            database_user,
            database_password,
            database_params,
        }
    }

    /// Sets the directory in which the migrations are kept. This never fails.
    pub fn migration_location(&mut self, p: &str) -> (result: Result<&mut Settings, Error>)
        ensures
            result matches Ok(this) && this@ == (SettingsView {
                migration_location: Some(p@),
                ..old(self)@
            }) && *final(self) == *final(this),
    {
        self.migration_location = Some(String::from_str(p));
        Ok(self)
    }

    /// Sets the path of the database file. Only sqlite uses it.
    ///
    /// Fails with a `Config` error, and leaves the settings as they are, unless
    /// the path is absolute.
    pub fn database_path(&mut self, p: &str) -> (result: Result<&mut Settings, Error>)
        ensures
            result is Ok <==> path_is_absolute(p@),
            result matches Ok(this) ==> this@ == (SettingsView {
                database_path: Some(p@),
                ..old(self)@
            }) && *final(self) == *final(this),
            result matches Err(e) ==> e.kind_of() == ErrorKind::Config && *final(self) == *old(
                self,
            ),
    {
        if !is_absolute(p) {
            return Err(
                Error::Config(
                    String::from_str(
                        "Explicit settings database path must be absolute: ",
                    ).concat(p),
                ),
            );
        }
        self.database_path = Some(String::from_str(p));
        Ok(self)
    }

    /// Sets the name of the database.
    pub fn database_name(&mut self, name: &str) -> (this: &mut Settings)
        ensures
            this@ == (SettingsView { database_name: Some(name@), ..old(self)@ }),
            *final(self) == *final(this),
    {
        self.database_name = Some(String::from_str(name));
        self
    }

    /// Sets the host of the database.
    pub fn database_host(&mut self, host: &str) -> (this: &mut Settings)
        ensures
            this@ == (SettingsView { database_host: Some(host@), ..old(self)@ }),
            *final(self) == *final(this),
    {
        self.database_host = Some(String::from_str(host));
        self
    }

    /// Sets the port of the database, which is kept in decimal digits.
    pub fn database_port(&mut self, port: u16) -> (this: &mut Settings)
        ensures
            this@ == (SettingsView {
                database_port: Some(decimal(port as nat)),
                ..old(self)@
            }),
            *final(self) == *final(this),
    {
        self.database_port = Some(decimal_text(port));
        self
    }

    /// Sets the user of the database.
    pub fn database_user(&mut self, user: &str) -> (this: &mut Settings)
        ensures
            this@ == (SettingsView { database_user: Some(user@), ..old(self)@ }),
            *final(self) == *final(this),
    {
        self.database_user = Some(String::from_str(user));
        self
    }

    /// Sets the password of the database.
    pub fn database_password(&mut self, pass: &str) -> (this: &mut Settings)
        ensures
            this@ == (SettingsView { database_password: Some(pass@), ..old(self)@ }),
            *final(self) == *final(this),
    {
        self.database_password = Some(String::from_str(pass));
        self
    }

    /// Sets the parameters of the connection, in place of those set before.
    ///
    /// Where a name occurs more than once, its last value counts, at the place
    /// of its first occurrence.
    pub fn database_params(&mut self, params: &[(&str, &str)]) -> (this: &mut Settings)
        ensures
            this@ == (SettingsView {
                database_params: Some(params_of(slice_pair_views(params@))),
                ..old(self)@
            }),
            *final(self) == *final(this),
    {
        let mut map: Vec<(String, String)> = Vec::new();
        let mut k: usize = 0;
        assert(slice_pair_views(params@).subrange(0, 0) =~= Seq::empty());
        assert(pair_views(map@) =~= Seq::empty());
        while k < params.len()
            invariant
                k <= params@.len(),
                pair_views(map@) == params_of(slice_pair_views(params@).subrange(0, k as int)),
            decreases params@.len() - k,
        {
            proof {
                let seen = slice_pair_views(params@).subrange(0, k as int);
                let wider = slice_pair_views(params@).subrange(0, k + 1);
                assert(wider.drop_last() =~= seen);
                assert(wider.last() == (params@[k as int].0@, params@[k as int].1@));
            }
            let pair = &params[k];
            set_pair(&mut map, pair.0, pair.1);
            k += 1;
        }
        assert(slice_pair_views(params@).subrange(0, k as int) =~= slice_pair_views(params@));
        self.database_params = Some(map);
        self
    }

    /// The name of the kind of database.
    pub fn db_type(&self) -> (name: &str)
        ensures
            name@ == self@.database_type,
    {
        self.database_type.as_str()
    }

    /// The directory in which the migrations are kept, if it is set.
    pub fn location(&self) -> (location: Option<&String>)
        ensures
            match location {
                Some(text) => self@.migration_location == Some(text@),
                None => self@.migration_location is None,
            },
    {
        self.migration_location.as_ref()
    }

    /// The path of the database file, if it is set.
    pub fn db_path(&self) -> (path: Option<&String>)
        ensures
            match path {
                Some(text) => self@.database_path == Some(text@),
                None => self@.database_path is None,
            },
    {
        self.database_path.as_ref()
    }

    /// The name of the database, if it is set.
    pub fn db_name(&self) -> (name: Option<&String>)
        ensures
            match name {
                Some(text) => self@.database_name == Some(text@),
                None => self@.database_name is None,
            },
    {
        self.database_name.as_ref()
    }

    /// The host of the database, if it is set.
    pub fn db_host(&self) -> (host: Option<&String>)
        ensures
            match host {
                Some(text) => self@.database_host == Some(text@),
                None => self@.database_host is None,
            },
    {
        self.database_host.as_ref()
    }

    /// The port of the database, if it is set.
    pub fn db_port(&self) -> (port: Option<&String>)
        ensures
            match port {
                Some(text) => self@.database_port == Some(text@),
                None => self@.database_port is None,
            },
    {
        self.database_port.as_ref()
    }

    /// The user of the database, if it is set.
    pub fn db_user(&self) -> (user: Option<&String>)
        ensures
            match user {
                Some(text) => self@.database_user == Some(text@),
                None => self@.database_user is None,
            },
    {
        self.database_user.as_ref()
    }

    /// The password of the database, if it is set.
    pub fn db_password(&self) -> (pass: Option<&String>)
        ensures
            match pass {
                Some(text) => self@.database_password == Some(text@),
                None => self@.database_password is None,
            },
    {
        self.database_password.as_ref()
    }

    /// The parameters of the connection, if they are set.
    pub fn db_params(&self) -> (params: Option<&Vec<(String, String)>>)
        ensures
            match params {
                Some(pairs) => self@.database_params == Some(pair_views(pairs@)),
                None => self@.database_params is None,
            },
    {
        self.database_params.as_ref()
    }
}

} // verus!
