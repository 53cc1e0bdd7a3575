//! Where the store lives and which day it takes for today, as the command
//! line says.

use crate::calendar::{parse_date, parsed_date};
use crate::text::same_text;
use vstd::prelude::*;
use vstd::string::*;

verus! {

/// How the store is set up.
#[derive(Debug)]
pub struct DatabaseConfig {
    /// Whether the store is kept in memory, for tests.
    pub is_test_mode: bool,
    /// A path of one's own for the store.
    pub custom_path: Option<String>,
    /// The day that the store takes for today.
    pub current_date: i32,
}

/// The path that stands for a store in memory.
pub open spec fn memory_path() -> Seq<char> {
    ":memory:"@
}

/// The path of the store where nothing else is asked for.
pub open spec fn default_path() -> Seq<char> {
    "memory_practice.db"@
}

/// Whether a path of one's own asks for a store in memory.
pub open spec fn asks_for_memory(path: Seq<char>) -> bool {
    path == ":mem:"@ || path == "memory"@
}

/// The index of the first argument that is `flag`, or the number of
/// arguments if none is.
pub open spec fn position_of(args: Seq<String>, flag: Seq<char>) -> int
    decreases args.len(),
{
    if args.len() == 0 {
        0
    } else if args[0]@ == flag {
        0
    } else {
        1 + position_of(args.drop_first(), flag)
    }
}

/// Whether one of the arguments is `flag`.
pub open spec fn has_flag(args: Seq<String>, flag: Seq<char>) -> bool {
    position_of(args, flag) < args.len()
}

/// The argument that follows the first `flag`, if `flag` is there and
/// something follows it.
pub open spec fn value_after(args: Seq<String>, flag: Seq<char>) -> Option<Seq<char>> {
    let at = position_of(args, flag) + 1;
    if at < args.len() {
        Some(args[at]@)
    } else {
        None
    }
}

/// The first argument that is `flag` stands where `position_of` says, and
/// none stands before it.
pub proof fn lemma_position_of(args: Seq<String>, flag: Seq<char>)
    ensures
        0 <= position_of(args, flag) <= args.len(),
        forall|i: int| 0 <= i < position_of(args, flag) ==> (#[trigger] args[i])@ != flag,
        position_of(args, flag) < args.len() ==> args[position_of(args, flag)]@ == flag,
    decreases args.len(),
{
    if args.len() > 0 && args[0]@ != flag {
        let rest = args.drop_first();
        lemma_position_of(rest, flag);
        assert forall|i: int| 0 <= i < position_of(args, flag) implies (#[trigger] args[i])@
            != flag by {
            if i > 0 {
                assert(args[i] == rest[i - 1]);
            }
        }
    }
}

impl DatabaseConfig {
    /// The path of the store. A path of one's own goes first: it is taken
    /// as it is, unless it asks for a store in memory. Without one, test
    /// mode means a store in memory, and otherwise the default path holds.
    pub open spec fn path(self) -> Seq<char> {
        match self.custom_path {
            Some(path) => if asks_for_memory(path@) {
                memory_path()
            } else {
                path@
            },
            None => if self.is_test_mode {
                memory_path()
            } else {
                default_path()
            },
        }
    }

    pub fn get_path(&self) -> (path: String)
        ensures
            path@ == self.path(),
    {
        match &self.custom_path {
            Some(path) => {
                if same_text(path.as_str(), ":mem:") || same_text(path.as_str(), "memory") {
                    ":memory:".to_owned()
                } else {
                    path.clone()
                }
            },
            None => {
                if self.is_test_mode {
                    ":memory:".to_owned()
                } else {
                    "memory_practice.db".to_owned()
                }
            },
        }
    }
}

/// Sets stores up.
#[derive(Debug, Clone, Copy)]
pub struct DatabaseFactory;

impl DatabaseFactory {
    /// The setup that the arguments ask for, `override_date` being the day
    /// that the value of `--override-date` names, if it names one, and
    /// `today` the day to take otherwise. `--test` asks for test mode, and
    /// what follows `--db-path` is the path of one's own.
    pub open spec fn config_of(args: Seq<String>, override_date: Option<int>, today: int)
        -> DatabaseConfigView {
        DatabaseConfigView {
            is_test_mode: has_flag(args, "--test"@),
            custom_path: value_after(args, "--db-path"@),
            current_date: match override_date {
                Some(day) => day,
                None => today,
            },
        }
    }

    /// The day that the arguments name for today, if they name one: what
    /// follows `--override-date`, read as a date.
    pub open spec fn override_date_of(args: Seq<String>) -> Option<int> {
        match value_after(args, "--override-date"@) {
            Some(text) => parsed_date(text),
            None => None,
        }
    }

    /// Reads the setup off the program's arguments; `today` is the day to
    /// take where the arguments name none.
    pub fn detect_config(args: &Vec<String>, today: i32) -> (config: DatabaseConfig)
        ensures
            config@ == Self::config_of(args@, Self::override_date_of(args@), today as int),
    {
        let date_at = Self::position(args, "--override-date");
        let override_date = if date_at < args.len() && date_at + 1 < args.len() {
            parse_date(args[date_at + 1].as_str())
        } else {
            None
        };
        Self::config_from(args, override_date, today)
    }

    /// The setup that the arguments ask for, the day named by
    /// `--override-date` already read.
    pub fn config_from(args: &Vec<String>, override_date: Option<i32>, today: i32) -> (config:
        DatabaseConfig)
        ensures
            config@ == Self::config_of(
                args@,
                match override_date {
                    Some(day) => Some(day as int),
                    None => None,
                },
                today as int,
            ),
    {
        let is_test_mode = Self::position(args, "--test") < args.len();
        let path_at = Self::position(args, "--db-path");
        let custom_path = if path_at < args.len() && path_at + 1 < args.len() {
            Some(args[path_at + 1].clone())
        } else {
            None
        };
        let current_date = match override_date {
            Some(day) => day,
            None => today,
        };
        DatabaseConfig { is_test_mode, custom_path, current_date }
    }

    /// Where the first `flag` stands among the arguments.
    fn position(args: &Vec<String>, flag: &str) -> (at: usize)
        ensures
            at == position_of(args@, flag@),
            at <= args.len(),
    {
        let mut at: usize = 0;
        proof {
            assert(args@.skip(0) =~= args@);
        }
        while at < args.len() && !same_text(args[at].as_str(), flag)
            invariant
                at <= args.len(),
                position_of(args@, flag@) == at + position_of(args@.skip(at as int), flag@),
            decreases args.len() - at,
        {
            proof {
                let rest = args@.skip(at as int);
                assert(rest.drop_first() =~= args@.skip(at as int + 1));
            }
            at = at + 1;
        }
        at
    }
}

/// A setup as contracts see it.
pub struct DatabaseConfigView {
    pub is_test_mode: bool,
    pub custom_path: Option<Seq<char>>,
    pub current_date: int,
}

impl View for DatabaseConfig {
    type V = DatabaseConfigView;

    open spec fn view(&self) -> DatabaseConfigView {
        DatabaseConfigView {
            is_test_mode: self.is_test_mode,
            custom_path: match self.custom_path {
                Some(path) => Some(path@),
                None => None,
            },
            current_date: self.current_date as int,
        }
    }
}

} // verus!
