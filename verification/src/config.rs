//! The server's immutable configuration: the root directory, the index file
//! name, and the set of request paths served as the index (the index
//! aliases, which always include `"/"`).

use vstd::prelude::*;

verus! {

/// The configuration a request is resolved against. Built once at startup
/// and never mutated; `paths` holds the index aliases, each starting with
/// `/`, and always holds `"/"` when built through [`Config::new`].
pub struct Config {
    pub dir: String,
    pub index: String,
    pub paths: Vec<String>,
}

/// The mathematical model of a [`Config`]: the alias list is read as a set
/// of character sequences.
#[verifier::ext_equal]
pub ghost struct ConfigModel {
    pub dir: Seq<char>,
    pub index: Seq<char>,
    pub aliases: Set<Seq<char>>,
}

/// The set of character sequences held by a sequence of strings.
pub open spec fn string_seq_set(v: Seq<String>) -> Set<Seq<char>> {
    Set::new(|p: Seq<char>| exists|i: int| 0 <= i < v.len() && v[i]@ == p)
}

impl View for Config {
    type V = ConfigModel;

    open spec fn view(&self) -> ConfigModel {
        ConfigModel {
            dir: self.dir@,
            index: self.index@,
            aliases: string_seq_set(self.paths@),
        }
    }
}

/// An alias as configured, normalized to start with `/`.
pub open spec fn normalize_alias(s: Seq<char>) -> Seq<char> {
    if s.len() > 0 && s[0] == '/' {
        s
    } else {
        seq!['/'] + s
    }
}

/// The alias set that a configured list gives: every entry normalized to
/// start with `/`, together with `"/"` itself.
pub open spec fn aliases_of(list: Seq<String>) -> Set<Seq<char>> {
    Set::new(
        |p: Seq<char>|
            p == seq!['/'] || exists|i: int| 0 <= i < list.len() && normalize_alias(list[i]@) == p,
    )
}

/// Turns the configured alias list into the alias set: each entry is
/// prefixed with `/` unless it already starts with one, and `"/"` is always
/// a member.
pub fn list_to_set(list: Vec<String>) -> (r: Vec<String>)
    ensures
        string_seq_set(r@) == aliases_of(list@),
{
    proof {
        reveal_strlit("/");
        assert("/"@ =~= seq!['/']);
    }
    let mut r: Vec<String> = Vec::new();
    r.push(String::from_str("/"));
    let mut k: usize = 0;
    while k < list.len()
        invariant
            k <= list@.len(),
            r@.len() == k + 1,
            r@[0]@ == seq!['/'],
            forall|j: int| 1 <= j < r@.len() ==> r@[j]@ == normalize_alias(list@[j - 1]@),
        decreases list@.len() - k,
    {
        proof {
            reveal_strlit("/");
            assert("/"@ =~= seq!['/']);
        }
        let s = &list[k];
        let t: String = if s.as_str().unicode_len() > 0 && s.as_str().get_char(0) == '/' {
            s.clone()
        } else {
            let mut u = String::from_str("/");
            u.append(s.as_str());
            u
        };
        proof {
            assert(t@ == normalize_alias(list@[k as int]@));
        }
        r.push(t);
        k += 1;
    }
    proof {
        lemma_list_to_set_shape(r@, list@);
    }
    r
}

/// A vector whose head is `"/"` and whose tail is the normalized alias list
/// holds exactly the alias set.
proof fn lemma_list_to_set_shape(r: Seq<String>, list: Seq<String>)
    requires
        r.len() == list.len() + 1,
        r[0]@ == seq!['/'],
        forall|j: int| 1 <= j < r.len() ==> r[j]@ == normalize_alias(list[j - 1]@),
    ensures
        string_seq_set(r) == aliases_of(list),
{
    assert forall|p: Seq<char>| string_seq_set(r).contains(p) implies aliases_of(list).contains(
        p,
    ) by {
        let i = choose|i: int| 0 <= i < r.len() && r[i]@ == p;
        if i == 0 {
            assert(p == seq!['/']);
        } else {
            assert(normalize_alias(list[i - 1]@) == p);
        }
    }
    assert forall|p: Seq<char>| aliases_of(list).contains(p) implies string_seq_set(r).contains(
        p,
    ) by {
        if p == seq!['/'] {
            assert(r[0]@ == p);
        } else {
            let i = choose|i: int| 0 <= i < list.len() && normalize_alias(list[i]@) == p;
            assert(r[i + 1]@ == p);
        }
    }
    assert(string_seq_set(r) =~= aliases_of(list));
}

impl Config {
    /// Builds the configuration from the root directory, the index file
    /// name, and the raw alias list; the alias set always holds `"/"`.
    pub fn new(dir: String, index: String, paths: Vec<String>) -> (r: Config)
        ensures
            r@.dir == dir@,
            r@.index == index@,
            r@.aliases == aliases_of(paths@),
            r@.aliases.contains(seq!['/']),
    {
        Config { dir, index, paths: list_to_set(paths) }
    }

    /// Whether `path` is one of the configured index aliases.
    pub fn is_alias(&self, path: &String) -> (r: bool)
        ensures
            r == self@.aliases.contains(path@),
    {
        let mut k: usize = 0;
        while k < self.paths.len()
            invariant
                k <= self.paths@.len(),
                forall|j: int| 0 <= j < k ==> self.paths@[j]@ != path@,
            decreases self.paths@.len() - k,
        {
            if path.eq(&self.paths[k]) {
                proof {
                    assert(self.paths@[k as int]@ == path@);
                }
                return true;
            }
            k += 1;
        }
        false
    }
}

} // verus!
