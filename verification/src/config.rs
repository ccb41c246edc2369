use vstd::prelude::*;

use crate::error::Error;

verus! {

/// A dynamic, loosely typed value, the shape in which the host hands
/// preferences to setup: nil, a scalar, a sequence, or a keyed table.
#[derive(Debug, PartialEq, Eq)]
pub enum Value {
    Nil,
    Boolean(bool),
    Integer(i64),
    Text(String),
    List(Vec<Value>),
    Dict(Vec<(String, Value)>),
    /// A host value of any other kind (a float, a handle); the schema never
    /// accepts one.
    Other,
}

/// The strict configuration schema. Its only field is the directory the
/// notes live in; every other key in a preference table is rejected.
#[derive(Debug, PartialEq, Eq)]
pub struct Config {
    pub notes_dir: String,
}

/// The default notes directory, used whenever the host supplies none.
pub fn default_notes_dir() -> (r: String)
    ensures
        r@ == "./"@,
{
    String::from_str("./")
}

/// Entry `i` of a preference table violates the schema: its key is not
/// `notes_dir`, or it repeats an earlier `notes_dir`, or its value is not
/// text.
pub open spec fn spec_entry_fault(entries: Seq<(String, Value)>, i: int) -> bool {
    ||| entries[i].0@ != "notes_dir"@
    ||| exists|j: int| 0 <= j < i && entries[j].0@ == "notes_dir"@
    ||| !(entries[i].1 is Text)
}

/// Entry `i` is the first schema violation of the table.
pub open spec fn spec_first_fault_at(entries: Seq<(String, Value)>, i: int) -> bool {
    &&& 0 <= i < entries.len()
    &&& spec_entry_fault(entries, i)
    &&& forall|j: int| 0 <= j < i ==> !spec_entry_fault(entries, j)
}

/// A well-formed preference table: no entry violates the schema.
pub open spec fn spec_dict_wf(entries: Seq<(String, Value)>) -> bool {
    forall|i: int| 0 <= i < entries.len() ==> !spec_entry_fault(entries, i)
}

/// The notes directory a well-formed table supplies, if any.
pub open spec fn spec_dict_notes_dir(entries: Seq<(String, Value)>) -> Option<Seq<char>> {
    if exists|i: int| 0 <= i < entries.len() && entries[i].0@ == "notes_dir"@ {
        let i = choose|i: int| 0 <= i < entries.len() && entries[i].0@ == "notes_dir"@;
        match entries[i].1 {
            Value::Text(s) => Some(s@),
            _ => None,
        }
    } else {
        None
    }
}

/// The path and reason attached to the error for the fault at entry `i`,
/// captured at the point of failure: the offending key is the path.
pub open spec fn spec_fault_error(
    entries: Seq<(String, Value)>,
    i: int,
    option: Seq<char>,
    why: Seq<char>,
) -> bool {
    if entries[i].0@ != "notes_dir"@ {
        option == entries[i].0@ && why == "unknown field"@
    } else if exists|j: int| 0 <= j < i && entries[j].0@ == "notes_dir"@ {
        option == "notes_dir"@ && why == "duplicate field"@
    } else {
        option == "notes_dir"@ && why == "expected a string"@
    }
}

/// An owned copy of an optional borrowed value.
pub open spec fn spec_opt_value(p: Option<&Value>) -> Option<Value> {
    match p {
        Some(v) => Some(*v),
        None => None,
    }
}

/// The host value is acceptable to the schema: absent, nil, or a
/// well-formed preference table.
pub open spec fn spec_prefs_wf(prefs: Option<Value>) -> bool {
    match prefs {
        None => true,
        Some(v) => match v {
            Value::Nil => true,
            Value::Dict(entries) => spec_dict_wf(entries@),
            _ => false,
        },
    }
}

/// The notes directory a successful build yields: the table's `notes_dir`
/// if supplied, the default `./` otherwise.
pub open spec fn spec_config_ok(prefs: Option<Value>, notes_dir: Seq<char>) -> bool {
    match prefs {
        None => notes_dir == "./"@,
        Some(v) => match v {
            Value::Nil => notes_dir == "./"@,
            Value::Dict(entries) => match spec_dict_notes_dir(entries@) {
                Some(d) => notes_dir == d,
                None => notes_dir == "./"@,
            },
            _ => false,
        },
    }
}

/// The error a rejected host value produces: `BadPreferences`, carrying the
/// exact path of the first offending field.
pub open spec fn spec_config_err(prefs: Option<Value>, e: Error) -> bool {
    match prefs {
        None => false,
        Some(v) => match v {
            Value::Nil => false,
            Value::Dict(entries) => e matches Error::BadPreferences { option, why }
                && exists|i: int|
                    spec_first_fault_at(entries@, i) && spec_fault_error(
                        entries@,
                        i,
                        option@,
                        why@,
                    ),
            _ => e matches Error::BadPreferences { option, why } && option@ == "."@ && why@
                == "expected a table"@,
        },
    }
}

/// Two `notes_dir` entries of a well-formed table are the same entry.
proof fn lemma_notes_dir_unique(entries: Seq<(String, Value)>, i: int, j: int)
    requires
        spec_dict_wf(entries),
        0 <= i < entries.len(),
        0 <= j < entries.len(),
        entries[i].0@ == "notes_dir"@,
        entries[j].0@ == "notes_dir"@,
    ensures
        i == j,
{
    if i < j {
        assert(spec_entry_fault(entries, j));
    }
    if j < i {
        assert(spec_entry_fault(entries, i));
    }
}

/// Build the strict configuration from an optional host value. An absent or
/// nil value yields the default configuration; a preference table is
/// decoded strictly, and the first offending field is reported with its
/// exact path; any other value is rejected.
pub fn build_config(prefs: Option<&Value>) -> (r: Result<Config, Error>)
    ensures
        match r {
            Ok(c) => spec_prefs_wf(spec_opt_value(prefs)) && spec_config_ok(
                spec_opt_value(prefs),
                c.notes_dir@,
            ),
            Err(e) => !spec_prefs_wf(spec_opt_value(prefs)) && spec_config_err(
                spec_opt_value(prefs),
                e,
            ),
        },
{
    let v = match prefs {
        None => {
            return Ok(Config { notes_dir: default_notes_dir() });
        },
        Some(v) => v,
    };
    match v {
        Value::Nil => Ok(Config { notes_dir: default_notes_dir() }),
        Value::Dict(entries) => {
            let key_notes_dir = String::from_str("notes_dir");
            let mut nd: Option<String> = None;
            let mut i: usize = 0;
            while i < entries.len()
                invariant
                    i <= entries@.len(),
                    spec_opt_value(prefs) matches Some(w) && (w matches Value::Dict(es) && es@
                        == entries@),
                    forall|j: int| 0 <= j < i ==> !spec_entry_fault(entries@, j),
                    key_notes_dir@ == "notes_dir"@,
                    match nd {
                        Some(s) => exists|j: int|
                            0 <= j < i && entries@[j].0@ == "notes_dir"@ && (entries@[j].1 matches
                            Value::Text(t) && t@ == s@),
                        None => forall|j: int| 0 <= j < i ==> entries@[j].0@ != "notes_dir"@,
                    },
                decreases entries@.len() - i,
            {
                let key = &entries[i].0;
                let val = &entries[i].1;
                if !(*key == key_notes_dir) {
                    proof {
                        assert(spec_first_fault_at(entries@, i as int));
                        assert(spec_fault_error(entries@, i as int, key@, "unknown field"@));
                    }
                    return Err(
                        Error::BadPreferences {
                            option: key.clone(),
                            why: String::from_str("unknown field"),
                        },
                    );
                }
                if nd.is_some() {
                    proof {
                        assert(spec_first_fault_at(entries@, i as int));
                        assert(spec_fault_error(entries@, i as int, key@, "duplicate field"@));
                    }
                    return Err(
                        Error::BadPreferences {
                            option: key.clone(),
                            why: String::from_str("duplicate field"),
                        },
                    );
                }
                match val {
                    Value::Text(s) => {
                        nd = Some(s.clone());
                    },
                    _ => {
                        proof {
                            assert(spec_first_fault_at(entries@, i as int));
                            assert(spec_fault_error(
                                entries@,
                                i as int,
                                key@,
                                "expected a string"@,
                            ));
                        }
                        return Err(
                            Error::BadPreferences {
                                option: key.clone(),
                                why: String::from_str("expected a string"),
                            },
                        );
                    },
                }
                i += 1;
            }
            match nd {
                Some(s) => {
                    proof {
                        let w = choose|w: int|
                            0 <= w < entries@.len() && entries@[w].0@ == "notes_dir"@;
                        let j = choose|j: int|
                            0 <= j < entries@.len() && entries@[j].0@ == "notes_dir"@ && (
                            entries@[j].1 matches Value::Text(t) && t@ == s@);
                        lemma_notes_dir_unique(entries@, w, j);
                    }
                    Ok(Config { notes_dir: s })
                },
                None => Ok(Config { notes_dir: default_notes_dir() }),
            }
        },
        _ => Err(
            Error::BadPreferences {
                option: String::from_str("."),
                why: String::from_str("expected a table"),
            },
        ),
    }
}

} // verus!
