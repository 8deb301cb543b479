//! Where things are stored: folders under the data folder and file names.
use vstd::prelude::*;

verus! {

/// The folders that hold the stored JSON files.
#[derive(Debug, PartialEq, Eq)]
pub enum Folder {
    Presets,
    Experiments,
    Results { experiment_key: String },
}

/// The folders an operator can open.
#[derive(Clone, Copy, Debug, PartialEq, Eq, Structural)]
pub enum TopLevelFolder {
    Presets,
    Experiments,
    Results,
}

impl Folder {
    pub open spec fn spec_path(&self) -> Seq<char> {
        match self {
            Folder::Presets => "presets"@,
            Folder::Experiments => "experiments"@,
            Folder::Results { experiment_key } => "results/"@ + experiment_key@,
        }
    }

    /// The folder's path relative to the data folder.
    pub fn path(&self) -> (r: String)
        ensures
            r@ == self.spec_path(),
    {
        match self {
            Folder::Presets => String::from_str("presets"),
            Folder::Experiments => String::from_str("experiments"),
            Folder::Results { experiment_key } => {
                let mut path = String::from_str("results/");
                path.append(experiment_key.as_str());
                path
            },
        }
    }
}

impl TopLevelFolder {
    pub open spec fn spec_path(&self) -> Seq<char> {
        match self {
            TopLevelFolder::Presets => "presets"@,
            TopLevelFolder::Experiments => "experiments"@,
            TopLevelFolder::Results => "results"@,
        }
    }

    /// The folder's path relative to the data folder.
    pub fn path(&self) -> (r: String)
        ensures
            r@ == self.spec_path(),
    {
        match self {
            TopLevelFolder::Presets => String::from_str("presets"),
            TopLevelFolder::Experiments => String::from_str("experiments"),
            TopLevelFolder::Results => String::from_str("results"),
        }
    }
}

/// The name of the file that stores the value under `key`.
pub fn file_name(key: &String) -> (r: String)
    ensures
        r@ == key@ + ".json"@,
{
    let mut name = key.clone();
    name.append(".json");
    name
}

/// The key that a file named `name` stores a value under: the name without
/// its `.json` extension, for a JSON file whose stem is not empty.
pub open spec fn spec_json_key(name: Seq<char>) -> Option<Seq<char>> {
    if name.len() > 5 && name.subrange(name.len() - 5, name.len() as int) == ".json"@ {
        Some(name.subrange(0, name.len() - 5))
    } else {
        None
    }
}

/// The key that a file named `name` stores a value under, if it is a JSON
/// file of the store.
pub fn json_key(name: &String) -> (r: Option<String>)
    ensures
        match r {
            Some(k) => spec_json_key(name@) == Some(k@),
            None => spec_json_key(name@) is None,
        },
{
    proof {
        reveal_strlit(".json");
    }
    let s = name.as_str();
    let n = s.unicode_len();
    if n <= 5 {
        return None;
    }
    if s.get_char(n - 5) == '.' && s.get_char(n - 4) == 'j' && s.get_char(n - 3) == 's'
        && s.get_char(n - 2) == 'o' && s.get_char(n - 1) == 'n' {
        assert(name@.subrange(n - 5, n as int) =~= ".json"@);
        Some(String::from_str(s.substring_char(0, n - 5)))
    } else {
        assert(name@.subrange(n - 5, n as int) != ".json"@) by {
            let t = name@.subrange(n - 5, n as int);
            if t == ".json"@ {
                assert(t[0] == '.' && t[1] == 'j' && t[2] == 's' && t[3] == 'o' && t[4] == 'n');
            }
        }
        None
    }
}

} // verus!
