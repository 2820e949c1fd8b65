//! The persistent configuration model.
//!
//! A configuration is an ordered list of named sections, each an ordered
//! list of key/value entries; lookups find the first matching section and
//! the first matching key within it.  On top of the plain lookups this
//! module builds the toolchain registry (section `erlangs`), the repository
//! catalog (section `repos`), and active-selection resolution: a
//! directory-scoped configuration takes precedence over the global default.
//!
//! Reading and writing the INI-shaped file that persists a configuration is
//! left to the unverified shell around this library, which hands the parsed
//! sections in and writes the edited sections back out.

use vstd::prelude::*;

use crate::text::str_eq;

verus! {

/// One key/value pair of a configuration section.
pub struct Entry {
    pub key: String,
    pub value: String,
}

/// A named configuration section.
pub struct Section {
    pub name: String,
    pub entries: Vec<Entry>,
}

/// An in-memory configuration: the ordered sections of an INI-shaped file.
pub struct ConfigData {
    pub sections: Vec<Section>,
}

impl Clone for Entry {
    fn clone(&self) -> (r: Self)
        ensures
            r == *self,
    {
        Entry { key: self.key.clone(), value: self.value.clone() }
    }
}

/// The value of the first entry with the given key, if any.
pub open spec fn find_entry(es: Seq<Entry>, key: Seq<char>) -> Option<Seq<char>>
    decreases es.len(),
{
    if es.len() == 0 {
        None
    } else if es[0].key@ == key {
        Some(es[0].value@)
    } else {
        find_entry(es.drop_first(), key)
    }
}

/// The entries of the first section with the given name, if any.
pub open spec fn find_section(ss: Seq<Section>, name: Seq<char>) -> Option<Seq<Entry>>
    decreases ss.len(),
{
    if ss.len() == 0 {
        None
    } else if ss[0].name@ == name {
        Some(ss[0].entries@)
    } else {
        find_section(ss.drop_first(), name)
    }
}

/// What a configuration associates with a section name and key.
pub open spec fn spec_lookup(c: ConfigData, section: Seq<char>, key: Seq<char>) -> Option<
    Seq<char>,
> {
    match find_section(c.sections@, section) {
        Some(es) => find_entry(es, key),
        None => None,
    }
}

proof fn lemma_find_entry_none(es: Seq<Entry>, key: Seq<char>)
    ensures
        find_entry(es, key) is None <==> (forall|j: int| 0 <= j < es.len() ==> es[j].key@ != key),
    decreases es.len(),
{
    reveal_with_fuel(find_entry, 2);
    if es.len() > 0 && es[0].key@ != key {
        lemma_find_entry_none(es.drop_first(), key);
        if find_entry(es, key) is None {
            assert forall|j: int| 0 <= j < es.len() implies es[j].key@ != key by {
                if j > 0 {
                    assert(es.drop_first()[j - 1] == es[j]);
                }
            }
        } else {
            let j = choose|j: int|
                0 <= j < es.drop_first().len() && es.drop_first()[j].key@ == key;
            assert(es[j + 1].key@ == key);
        }
    }
}

proof fn lemma_find_section_none(ss: Seq<Section>, name: Seq<char>)
    ensures
        find_section(ss, name) is None <==> (forall|j: int|
            0 <= j < ss.len() ==> ss[j].name@ != name),
    decreases ss.len(),
{
    reveal_with_fuel(find_section, 2);
    if ss.len() > 0 && ss[0].name@ != name {
        lemma_find_section_none(ss.drop_first(), name);
        if find_section(ss, name) is None {
            assert forall|j: int| 0 <= j < ss.len() implies ss[j].name@ != name by {
                if j > 0 {
                    assert(ss.drop_first()[j - 1] == ss[j]);
                }
            }
        } else {
            let j = choose|j: int|
                0 <= j < ss.drop_first().len() && ss.drop_first()[j].name@ == name;
            assert(ss[j + 1].name@ == name);
        }
    }
}

proof fn lemma_find_entry_first(es: Seq<Entry>, i: int)
    requires
        0 <= i < es.len(),
        forall|j: int| 0 <= j < i ==> es[j].key@ != es[i].key@,
    ensures
        find_entry(es, es[i].key@) == Some(es[i].value@),
    decreases i,
{
    reveal_with_fuel(find_entry, 2);
    if i > 0 {
        assert forall|j: int| 0 <= j < i - 1 implies #[trigger] es.drop_first()[j].key@
            != es.drop_first()[i - 1].key@ by {
            assert(es.drop_first()[j] == es[j + 1]);
            assert(es.drop_first()[i - 1] == es[i]);
        }
        assert(es.drop_first()[i - 1] == es[i]);
        lemma_find_entry_first(es.drop_first(), i - 1);
    }
}

proof fn lemma_find_section_first(ss: Seq<Section>, i: int)
    requires
        0 <= i < ss.len(),
        forall|j: int| 0 <= j < i ==> ss[j].name@ != ss[i].name@,
    ensures
        find_section(ss, ss[i].name@) == Some(ss[i].entries@),
    decreases i,
{
    reveal_with_fuel(find_section, 2);
    if i > 0 {
        assert forall|j: int| 0 <= j < i - 1 implies #[trigger] ss.drop_first()[j].name@
            != ss.drop_first()[i - 1].name@ by {
            assert(ss.drop_first()[j] == ss[j + 1]);
            assert(ss.drop_first()[i - 1] == ss[i]);
        }
        assert(ss.drop_first()[i - 1] == ss[i]);
        lemma_find_section_first(ss.drop_first(), i - 1);
    }
}

proof fn lemma_find_entry_push(es: Seq<Entry>, e: Entry, key: Seq<char>)
    ensures
        find_entry(es.push(e), key) == (if find_entry(es, key) is Some {
            find_entry(es, key)
        } else if e.key@ == key {
            Some(e.value@)
        } else {
            None
        }),
    decreases es.len(),
{
    reveal_with_fuel(find_entry, 3);
    if es.len() == 0 {
        assert(es.push(e)[0] == e);
        assert(es.push(e).drop_first() =~= Seq::<Entry>::empty());
        assert(find_entry(Seq::<Entry>::empty(), key) is None);
    } else {
        assert(es.push(e)[0] == es[0]);
        assert(es.push(e).drop_first() =~= es.drop_first().push(e));
        lemma_find_entry_push(es.drop_first(), e, key);
    }
}

proof fn lemma_find_section_push(ss: Seq<Section>, s: Section, name: Seq<char>)
    ensures
        find_section(ss.push(s), name) == (if find_section(ss, name) is Some {
            find_section(ss, name)
        } else if s.name@ == name {
            Some(s.entries@)
        } else {
            None
        }),
    decreases ss.len(),
{
    reveal_with_fuel(find_section, 3);
    if ss.len() == 0 {
        assert(ss.push(s)[0] == s);
        assert(ss.push(s).drop_first() =~= Seq::<Section>::empty());
        assert(find_section(Seq::<Section>::empty(), name) is None);
    } else {
        assert(ss.push(s)[0] == ss[0]);
        assert(ss.push(s).drop_first() =~= ss.drop_first().push(s));
        lemma_find_section_push(ss.drop_first(), s, name);
    }
}

proof fn lemma_find_entry_update(es: Seq<Entry>, i: int, e: Entry, key: Seq<char>)
    requires
        0 <= i < es.len(),
        es[i].key@ == e.key@,
        forall|j: int| 0 <= j < i ==> es[j].key@ != e.key@,
    ensures
        find_entry(es.update(i, e), key) == (if key == e.key@ {
            Some(e.value@)
        } else {
            find_entry(es, key)
        }),
    decreases i,
{
    reveal_with_fuel(find_entry, 2);
    if i == 0 {
        assert(es.update(0, e)[0] == e);
        if key != e.key@ {
            assert(es.update(0, e).drop_first() =~= es.drop_first());
        }
    } else {
        assert(es.update(i, e)[0] == es[0]);
        assert(es.update(i, e).drop_first() =~= es.drop_first().update(i - 1, e));
        assert forall|j: int| 0 <= j < i - 1 implies #[trigger] es.drop_first()[j].key@ != e.key@ by {
            assert(es.drop_first()[j] == es[j + 1]);
        }
        assert(es.drop_first()[i - 1] == es[i]);
        lemma_find_entry_update(es.drop_first(), i - 1, e, key);
    }
}

proof fn lemma_find_section_update(ss: Seq<Section>, i: int, s: Section, name: Seq<char>)
    requires
        0 <= i < ss.len(),
        ss[i].name@ == s.name@,
        forall|j: int| 0 <= j < i ==> ss[j].name@ != s.name@,
    ensures
        find_section(ss.update(i, s), name) == (if name == s.name@ {
            Some(s.entries@)
        } else {
            find_section(ss, name)
        }),
    decreases i,
{
    reveal_with_fuel(find_section, 2);
    if i == 0 {
        assert(ss.update(0, s)[0] == s);
        if name != s.name@ {
            assert(ss.update(0, s).drop_first() =~= ss.drop_first());
        }
    } else {
        assert(ss.update(i, s)[0] == ss[0]);
        assert(ss.update(i, s).drop_first() =~= ss.drop_first().update(i - 1, s));
        assert forall|j: int| 0 <= j < i - 1 implies #[trigger] ss.drop_first()[j].name@ != s.name@ by {
            assert(ss.drop_first()[j] == ss[j + 1]);
        }
        assert(ss.drop_first()[i - 1] == ss[i]);
        lemma_find_section_update(ss.drop_first(), i - 1, s, name);
    }
}

/// Index of the first section with the given name.
fn section_index(sections: &Vec<Section>, name: &str) -> (r: Option<usize>)
    ensures
        match r {
            Some(i) => i < sections@.len() && sections@[i as int].name@ == name@ && (forall|j: int|
                0 <= j < i ==> sections@[j].name@ != name@),
            None => forall|j: int| 0 <= j < sections@.len() ==> sections@[j].name@ != name@,
        },
{
    let mut i: usize = 0;
    while i < sections.len()
        invariant
            i <= sections@.len(),
            forall|j: int| 0 <= j < i ==> sections@[j].name@ != name@,
        decreases sections@.len() - i,
    {
        if str_eq(sections[i].name.as_str(), name) {
            return Some(i);
        }
        i = i + 1;
    }
    None
}

/// Index of the first entry with the given key.
fn entry_index(entries: &Vec<Entry>, key: &str) -> (r: Option<usize>)
    ensures
        match r {
            Some(i) => i < entries@.len() && entries@[i as int].key@ == key@ && (forall|j: int|
                0 <= j < i ==> entries@[j].key@ != key@),
            None => forall|j: int| 0 <= j < entries@.len() ==> entries@[j].key@ != key@,
        },
{
    let mut i: usize = 0;
    while i < entries.len()
        invariant
            i <= entries@.len(),
            forall|j: int| 0 <= j < i ==> entries@[j].key@ != key@,
        decreases entries@.len() - i,
    {
        if str_eq(entries[i].key.as_str(), key) {
            return Some(i);
        }
        i = i + 1;
    }
    None
}

/// Reads the entry for `key` in the first section named `section`.
pub fn lookup<'a>(section: &str, key: &str, conf: &'a ConfigData) -> (r: Option<&'a String>)
    ensures
        match r {
            Some(v) => spec_lookup(*conf, section@, key@) == Some(v@),
            None => spec_lookup(*conf, section@, key@) is None,
        },
{
    match section_index(&conf.sections, section) {
        Some(i) => {
            proof {
                lemma_find_section_first(conf.sections@, i as int);
            }
            match entry_index(&conf.sections[i].entries, key) {
                Some(j) => {
                    proof {
                        lemma_find_entry_first(conf.sections@[i as int].entries@, j as int);
                    }
                    Some(&conf.sections[i].entries[j].value)
                },
                None => {
                    proof {
                        lemma_find_entry_none(conf.sections@[i as int].entries@, key@);
                    }
                    None
                },
            }
        },
        None => {
            proof {
                lemma_find_section_none(conf.sections@, section@);
            }
            None
        },
    }
}

/// Writes `value` under `key` in the first section named `section`,
/// appending the entry or the whole section when absent.
pub fn set_value(section: &str, key: &str, value: &str, conf: &mut ConfigData)
    ensures
        spec_lookup(*final(conf), section@, key@) == Some(value@),
        forall|s: Seq<char>, k: Seq<char>|
            !(s == section@ && k == key@) ==> #[trigger] spec_lookup(*final(conf), s, k)
                == spec_lookup(*old(conf), s, k),
{
    let ghost old_sections = conf.sections@;
    match section_index(&conf.sections, section) {
        Some(i) => {
            let mut sec = conf.sections.remove(i);
            let ghost old_entries = sec.entries@;
            match entry_index(&sec.entries, key) {
                Some(j) => {
                    let mut e = sec.entries.remove(j);
                    e.value = value.to_owned();
                    sec.entries.insert(j, e);
                    proof {
                        let new_e = sec.entries@[j as int];
                        assert(sec.entries@ =~= old_entries.update(j as int, new_e));
                        assert forall|k: Seq<char>| #[trigger]
                            find_entry(sec.entries@, k) == (if k == key@ {
                                Some(value@)
                            } else {
                                find_entry(old_entries, k)
                            }) by {
                            lemma_find_entry_update(old_entries, j as int, new_e, k);
                        }
                    }
                },
                None => {
                    sec.entries.push(Entry { key: key.to_owned(), value: value.to_owned() });
                    proof {
                        let new_e = sec.entries@.last();
                        assert(sec.entries@ =~= old_entries.push(new_e));
                        lemma_find_entry_none(old_entries, key@);
                        assert forall|k: Seq<char>| #[trigger]
                            find_entry(sec.entries@, k) == (if k == key@ {
                                Some(value@)
                            } else {
                                find_entry(old_entries, k)
                            }) by {
                            lemma_find_entry_push(old_entries, new_e, k);
                            if k != key@ && find_entry(old_entries, k) is None {
                                assert(new_e.key@ != k);
                            }
                        }
                    }
                },
            }
            let ghost new_sec = sec;
            conf.sections.insert(i, sec);
            proof {
                assert(conf.sections@ =~= old_sections.update(i as int, new_sec));
                assert forall|s: Seq<char>| #[trigger]
                    find_section(conf.sections@, s) == (if s == section@ {
                        Some(new_sec.entries@)
                    } else {
                        find_section(old_sections, s)
                    }) by {
                    lemma_find_section_update(old_sections, i as int, new_sec, s);
                }
                lemma_find_section_first(old_sections, i as int);
            }
        },
        None => {
            let mut es: Vec<Entry> = Vec::new();
            es.push(Entry { key: key.to_owned(), value: value.to_owned() });
            let sec = Section { name: section.to_owned(), entries: es };
            let ghost new_sec = sec;
            conf.sections.push(sec);
            proof {
                lemma_find_section_none(old_sections, section@);
                assert forall|s: Seq<char>| #[trigger]
                    find_section(conf.sections@, s) == (if s == section@ {
                        Some(new_sec.entries@)
                    } else {
                        find_section(old_sections, s)
                    }) by {
                    lemma_find_section_push(old_sections, new_sec, s);
                }
                reveal_with_fuel(find_entry, 3);
                assert(new_sec.entries@[0].key@ == key@ && new_sec.entries@[0].value@ == value@);
                assert(new_sec.entries@.drop_first() =~= Seq::<Entry>::empty());
                assert forall|k: Seq<char>| #[trigger]
                    find_entry(new_sec.entries@, k) == (if k == key@ {
                        Some(value@)
                    } else {
                        None
                    }) by {
                        assert(new_sec.entries@.drop_first() =~= Seq::<Entry>::empty());
                }
            }
        },
    }
}

/// The entries left when every entry with the given key is removed.
pub open spec fn remove_key(es: Seq<Entry>, key: Seq<char>) -> Seq<Entry>
    decreases es.len(),
{
    if es.len() == 0 {
        Seq::empty()
    } else if es[0].key@ == key {
        remove_key(es.drop_first(), key)
    } else {
        seq![es[0]] + remove_key(es.drop_first(), key)
    }
}

proof fn lemma_remove_key_push(es: Seq<Entry>, e: Entry, key: Seq<char>)
    ensures
        remove_key(es.push(e), key) == (if e.key@ == key {
            remove_key(es, key)
        } else {
            remove_key(es, key).push(e)
        }),
    decreases es.len(),
{
    reveal_with_fuel(remove_key, 3);
    if es.len() == 0 {
        assert(es.push(e)[0] == e);
        assert(es.push(e).drop_first() =~= Seq::<Entry>::empty());
        if e.key@ != key {
            assert(seq![e] + remove_key(Seq::<Entry>::empty(), key) =~= remove_key(
                Seq::<Entry>::empty(),
                key,
            ).push(e));
        }
    } else {
        assert(es.push(e)[0] == es[0]);
        assert(es.push(e).drop_first() =~= es.drop_first().push(e));
        lemma_remove_key_push(es.drop_first(), e, key);
        if es[0].key@ != key && e.key@ != key {
            assert(seq![es[0]] + remove_key(es.drop_first(), key).push(e) =~= (seq![es[0]]
                + remove_key(es.drop_first(), key)).push(e));
        }
    }
}

proof fn lemma_find_entry_remove_key(es: Seq<Entry>, key: Seq<char>, k: Seq<char>)
    ensures
        find_entry(remove_key(es, key), k) == (if k == key {
            None
        } else {
            find_entry(es, k)
        }),
    decreases es.len(),
{
    reveal_with_fuel(find_entry, 2);
    reveal_with_fuel(remove_key, 2);
    if es.len() == 0 {
        assert(find_entry(Seq::<Entry>::empty(), k) is None);
    } else if es[0].key@ == key {
        lemma_find_entry_remove_key(es.drop_first(), key, k);
    } else {
        lemma_find_entry_remove_key(es.drop_first(), key, k);
        let r = seq![es[0]] + remove_key(es.drop_first(), key);
        assert(r[0] == es[0]);
        assert(r.drop_first() =~= remove_key(es.drop_first(), key));
    }
}

/// Removes every entry for `key` from the first section named `section`.
pub fn delete_value(section: &str, key: &str, conf: &mut ConfigData)
    ensures
        spec_lookup(*final(conf), section@, key@) is None,
        forall|s: Seq<char>, k: Seq<char>|
            !(s == section@ && k == key@) ==> #[trigger] spec_lookup(*final(conf), s, k)
                == spec_lookup(*old(conf), s, k),
{
    let ghost old_sections = conf.sections@;
    match section_index(&conf.sections, section) {
        Some(i) => {
            let mut sec = conf.sections.remove(i);
            let ghost old_entries = sec.entries@;
            let mut kept: Vec<Entry> = Vec::new();
            let mut j: usize = 0;
            while j < sec.entries.len()
                invariant
                    j <= sec.entries@.len(),
                    kept@ == remove_key(sec.entries@.take(j as int), key@),
                decreases sec.entries@.len() - j,
            {
                proof {
                    assert(sec.entries@.take(j + 1) =~= sec.entries@.take(j as int).push(
                        sec.entries@[j as int],
                    ));
                    lemma_remove_key_push(sec.entries@.take(j as int), sec.entries@[j as int], key@);
                }
                if !str_eq(sec.entries[j].key.as_str(), key) {
                    let e = sec.entries[j].clone();
                    kept.push(e);
                }
                j = j + 1;
            }
            proof {
                assert(sec.entries@.take(sec.entries@.len() as int) =~= sec.entries@);
            }
            sec.entries = kept;
            let ghost new_sec = sec;
            conf.sections.insert(i, sec);
            proof {
                assert(conf.sections@ =~= old_sections.update(i as int, new_sec));
                assert forall|s: Seq<char>| #[trigger]
                    find_section(conf.sections@, s) == (if s == section@ {
                        Some(new_sec.entries@)
                    } else {
                        find_section(old_sections, s)
                    }) by {
                    lemma_find_section_update(old_sections, i as int, new_sec, s);
                }
                lemma_find_section_first(old_sections, i as int);
                assert forall|k: Seq<char>| #[trigger]
                    find_entry(new_sec.entries@, k) == (if k == key@ {
                        None
                    } else {
                        find_entry(old_entries, k)
                    }) by {
                    lemma_find_entry_remove_key(old_entries, key@, k);
                }
            }
        },
        None => {
            proof {
                lemma_find_section_none(old_sections, section@);
            }
        },
    }
}

/// Reads the entry for `key`, handing back the caller's own message when it
/// is absent; the caller terminates on the error.
pub fn lookup_or_exit<'a>(section: &str, key: &str, msg: &str, conf: &'a ConfigData) -> (r: Result<
    &'a String,
    String,
>)
    ensures
        match r {
            Ok(v) => spec_lookup(*conf, section@, key@) == Some(v@),
            Err(m) => spec_lookup(*conf, section@, key@) is None && m@ == msg@,
        },
{
    match lookup(section, key, conf) {
        Some(v) => Ok(v),
        None => Err(msg.to_owned()),
    }
}

/// Reads the entry for `key`, falling back to `default` when it is absent.
pub fn lookup_with_default<'a>(section: &str, key: &str, default: &'a str, conf: &'a ConfigData)
    -> (r: &'a str)
    ensures
        match spec_lookup(*conf, section@, key@) {
            Some(v) => r@ == v,
            None => r@ == default@,
        },
{
    match lookup(section, key, conf) {
        Some(v) => v.as_str(),
        None => default,
    }
}

/// The cache directory setting, under which repository checkouts, builds
/// and the shim directory all live.
pub fn lookup_cache_dir(conf: &ConfigData) -> (r: Result<&String, String>)
    ensures
        match r {
            Ok(v) => spec_lookup(*conf, "erlup"@, "dir"@) == Some(v@),
            Err(_) => spec_lookup(*conf, "erlup"@, "dir"@) is None,
        },
{
    lookup_or_exit(
        "erlup",
        "dir",
        "The config file ~/.config/erlup/config is missing erlup.dir setting used for storing repos and built Erlang versions",
        conf,
    )
}

/// Registers a built toolchain: maps `id` to its installation directory.
pub fn update(id: &str, dir: &str, conf: &mut ConfigData)
    ensures
        spec_lookup(*final(conf), "erlangs"@, id@) == Some(dir@),
        forall|s: Seq<char>, k: Seq<char>|
            !(s == "erlangs"@ && k == id@) ==> #[trigger] spec_lookup(*final(conf), s, k)
                == spec_lookup(*old(conf), s, k),
{
    set_value("erlangs", id, dir, conf);
}

/// Removes a toolchain record from the registry.
pub fn delete(id: &str, conf: &mut ConfigData)
    ensures
        spec_lookup(*final(conf), "erlangs"@, id@) is None,
        forall|s: Seq<char>, k: Seq<char>|
            !(s == "erlangs"@ && k == id@) ==> #[trigger] spec_lookup(*final(conf), s, k)
                == spec_lookup(*old(conf), s, k),
{
    delete_value("erlangs", id, conf);
}

/// Adds a repository to the catalog: maps its name to its remote URL.
pub fn add_repo(repo_id: &str, repo_url: &str, conf: &mut ConfigData)
    ensures
        spec_lookup(*final(conf), "repos"@, repo_id@) == Some(repo_url@),
        forall|s: Seq<char>, k: Seq<char>|
            !(s == "repos"@ && k == repo_id@) ==> #[trigger] spec_lookup(*final(conf), s, k)
                == spec_lookup(*old(conf), s, k),
{
    set_value("repos", repo_id, repo_url, conf);
}

/// Removes a repository from the catalog.
pub fn delete_repo(repo_id: &str, conf: &mut ConfigData)
    ensures
        spec_lookup(*final(conf), "repos"@, repo_id@) is None,
        forall|s: Seq<char>, k: Seq<char>|
            !(s == "repos"@ && k == repo_id@) ==> #[trigger] spec_lookup(*final(conf), s, k)
                == spec_lookup(*old(conf), s, k),
{
    delete_value("repos", repo_id, conf);
}

/// The key/value pairs of the first section with the given name, in order.
fn section_entries(section: &str, conf: &ConfigData) -> (r: Vec<(String, String)>)
    ensures
        match find_section(conf.sections@, section@) {
            Some(es) => r@.len() == es.len() && (forall|i: int|
                0 <= i < es.len() ==> (#[trigger] r@[i]).0@ == es[i].key@ && r@[i].1@
                    == es[i].value@),
            None => r@.len() == 0,
        },
{
    let mut r: Vec<(String, String)> = Vec::new();
    match section_index(&conf.sections, section) {
        Some(i) => {
            proof {
                lemma_find_section_first(conf.sections@, i as int);
            }
            let entries = &conf.sections[i].entries;
            let mut j: usize = 0;
            while j < entries.len()
                invariant
                    j <= entries@.len(),
                    r@.len() == j,
                    forall|l: int|
                        0 <= l < j ==> (#[trigger] r@[l]).0@ == entries@[l].key@ && r@[l].1@
                            == entries@[l].value@,
                decreases entries@.len() - j,
            {
                r.push((entries[j].key.clone(), entries[j].value.clone()));
                j = j + 1;
            }
            r
        },
        None => {
            proof {
                lemma_find_section_none(conf.sections@, section@);
            }
            r
        },
    }
}

/// The registered toolchains, in registry order.
pub fn list(conf: &ConfigData) -> (r: Vec<(String, String)>)
    ensures
        match find_section(conf.sections@, "erlangs"@) {
            Some(es) => r@.len() == es.len() && (forall|i: int|
                0 <= i < es.len() ==> (#[trigger] r@[i]).0@ == es[i].key@ && r@[i].1@
                    == es[i].value@),
            None => r@.len() == 0,
        },
{
    section_entries("erlangs", conf)
}

/// The configured repositories, in catalog order.
pub fn get_repos(conf: &ConfigData) -> (r: Vec<(String, String)>)
    ensures
        match find_section(conf.sections@, "repos"@) {
            Some(es) => r@.len() == es.len() && (forall|i: int|
                0 <= i < es.len() ==> (#[trigger] r@[i]).0@ == es[i].key@ && r@[i].1@
                    == es[i].value@),
            None => r@.len() == 0,
        },
{
    section_entries("repos", conf)
}

/// The repository named by the caller, or the `default` repository.
pub fn repo_or_default(maybe_repo: Option<String>) -> (r: String)
    ensures
        r@ == match maybe_repo {
            Some(repo) => repo@,
            None => "default"@,
        },
{
    match maybe_repo {
        Some(repo) => repo,
        None => "default".to_owned(),
    }
}

/// The configuration contents created on first use: the cache directory
/// and the one stock repository.
pub fn default_config(cache_dir: &str) -> (c: ConfigData)
    ensures
        spec_lookup(c, "erlup"@, "dir"@) == Some(cache_dir@),
        spec_lookup(c, "repos"@, "default"@) == Some("https://github.com/erlang/otp"@),
        forall|s: Seq<char>, k: Seq<char>|
            !(s == "erlup"@ && k == "dir"@) && !(s == "repos"@ && k == "default"@)
                ==> #[trigger] spec_lookup(c, s, k) is None,
{
    let mut c = ConfigData { sections: Vec::new() };
    proof {
        reveal_strlit("erlup");
        reveal_strlit("repos");
        reveal_strlit("dir");
        reveal_strlit("default");
        assert("erlup"@[0] == 'e' && "repos"@[0] == 'r');
        assert("erlup"@ != "repos"@);
        assert("dir"@.len() == 3 && "default"@.len() == 7);
        assert("dir"@ != "default"@);
        assert(forall|s: Seq<char>, k: Seq<char>| #[trigger] spec_lookup(c, s, k) is None);
    }
    set_value("erlup", "dir", cache_dir, &mut c);
    set_value("repos", "default", "https://github.com/erlang/otp", &mut c);
    c
}

/// Why no installation directory could be resolved for an invocation.
#[derive(Debug)]
pub enum SelectError {
    /// A directory-scoped configuration exists but names no selection.
    MissingCwdEntry,
    /// No directory-scoped configuration and no global default.
    MissingDefault,
    /// The selected id has no registry entry.
    UnknownId { id: String },
}

/// The outcome of active-selection resolution, at the specification level.
pub enum SelectionModel {
    Install(Seq<char>),
    MissingCwdEntry,
    MissingDefault,
    UnknownId(Seq<char>),
}

/// Resolves a selected id against the toolchain registry.
pub open spec fn spec_resolve(id: Seq<char>, home: ConfigData) -> SelectionModel {
    match spec_lookup(home, "erlangs"@, id) {
        Some(dir) => SelectionModel::Install(dir),
        None => SelectionModel::UnknownId(id),
    }
}

/// Active-selection resolution: a directory-scoped configuration, when
/// present, decides the id; only without one is the global default read.
pub open spec fn spec_erl_to_use(cwd: Option<ConfigData>, home: ConfigData) -> SelectionModel {
    match cwd {
        Some(c) => match spec_lookup(c, "config"@, "erlang"@) {
            Some(id) => spec_resolve(id, home),
            None => SelectionModel::MissingCwdEntry,
        },
        None => match spec_lookup(home, "erlup"@, "default"@) {
            Some(id) => spec_resolve(id, home),
            None => SelectionModel::MissingDefault,
        },
    }
}

/// How an executable resolution result corresponds to the model.
pub open spec fn selection_matches(r: Result<String, SelectError>, m: SelectionModel) -> bool {
    match m {
        SelectionModel::Install(dir) => r matches Ok(s) && s@ == dir,
        SelectionModel::MissingCwdEntry => r == Err::<String, SelectError>(
            SelectError::MissingCwdEntry,
        ),
        SelectionModel::MissingDefault => r == Err::<String, SelectError>(
            SelectError::MissingDefault,
        ),
        SelectionModel::UnknownId(id) => r matches Err(SelectError::UnknownId { id: s }) && s@
            == id,
    }
}

pub open spec fn opt_config(c: Option<&ConfigData>) -> Option<ConfigData> {
    match c {
        Some(x) => Some(*x),
        None => None,
    }
}

/// The installation directory the current invocation should use: the
/// directory-scoped selection when a directory-scoped configuration is
/// present, otherwise the global default, resolved through the registry.
pub fn erl_to_use(cwd_config: Option<&ConfigData>, config: &ConfigData) -> (r: Result<
    String,
    SelectError,
>)
    ensures
        selection_matches(r, spec_erl_to_use(opt_config(cwd_config), *config)),
{
    let id: String = match cwd_config {
        Some(c) => match lookup("config", "erlang", c) {
            Some(entry) => entry.clone(),
            None => {
                return Err(SelectError::MissingCwdEntry);
            },
        },
        None => match lookup("erlup", "default", config) {
            Some(entry) => entry.clone(),
            None => {
                return Err(SelectError::MissingDefault);
            },
        },
    };
    match lookup("erlangs", id.as_str(), config) {
        Some(dir) => Ok(dir.clone()),
        None => Err(SelectError::UnknownId { id }),
    }
}

/// Prepares the directory-scoped configuration that selects `id` for the
/// working directory; the id must name a registered toolchain.  The caller
/// writes the result over the directory's configuration file whole.
pub fn switch(id: &str, conf: &ConfigData) -> (r: Result<ConfigData, SelectError>)
    ensures
        spec_lookup(*conf, "erlangs"@, id@) is Some <==> r is Ok,
        r matches Ok(c) ==> spec_lookup(c, "config"@, "erlang"@) == Some(id@) && (forall|
            s: Seq<char>,
            k: Seq<char>,
        |
            !(s == "config"@ && k == "erlang"@) ==> #[trigger] spec_lookup(c, s, k) is None),
        r matches Err(e) ==> e matches SelectError::UnknownId { id: s } && s@ == id@,
{
    match lookup("erlangs", id, conf) {
        Some(_) => {
            let mut c = ConfigData { sections: Vec::new() };
            proof {
                assert(forall|s: Seq<char>, k: Seq<char>| #[trigger] spec_lookup(c, s, k) is None);
            }
            set_value("config", "erlang", id, &mut c);
            Ok(c)
        },
        None => Err(SelectError::UnknownId { id: id.to_owned() }),
    }
}

/// Makes `id` the global default selection; the id must name a registered
/// toolchain, and an unknown id leaves the configuration untouched.
pub fn set_default(id: &str, conf: &mut ConfigData) -> (r: Result<(), SelectError>)
    ensures
        spec_lookup(*old(conf), "erlangs"@, id@) is Some <==> r is Ok,
        r is Ok ==> spec_lookup(*final(conf), "erlup"@, "default"@) == Some(id@) && (forall|
            s: Seq<char>,
            k: Seq<char>,
        |
            !(s == "erlup"@ && k == "default"@) ==> #[trigger] spec_lookup(*final(conf), s, k)
                == spec_lookup(*old(conf), s, k)),
        r matches Err(e) ==> *final(conf) == *old(conf) && (e matches SelectError::UnknownId {
            id: s,
        } && s@ == id@),
{
    let known = lookup("erlangs", id, conf).is_some();
    if known {
        set_value("erlup", "default", id, conf);
        Ok(())
    } else {
        Err(SelectError::UnknownId { id: id.to_owned() })
    }
}

/// The directory-scoped selection always wins over the global default:
/// when the working-directory configuration names a selection, the outcome
/// depends only on that selection and the registry, never on the global
/// default entry.
pub proof fn lemma_directory_selection_wins(cwd: ConfigData, home_a: ConfigData, home_b: ConfigData)
    requires
        spec_lookup(cwd, "config"@, "erlang"@) is Some,
        find_section(home_a.sections@, "erlangs"@) == find_section(home_b.sections@, "erlangs"@),
    ensures
        spec_erl_to_use(Some(cwd), home_a) == spec_erl_to_use(Some(cwd), home_b),
{
}

/// Without a directory-scoped selection, resolution falls back to the
/// global default id.
pub proof fn lemma_fallback_to_default(home: ConfigData)
    requires
        spec_lookup(home, "erlup"@, "default"@) is Some,
    ensures
        spec_erl_to_use(None, home) == spec_resolve(
            spec_lookup(home, "erlup"@, "default"@)->Some_0,
            home,
        ),
{
}

} // verus!
