//! The two shim farms.
//!
//! The global farm lives in one shared directory and points every alias
//! name at the management executable itself; refreshing it removes and
//! recreates exactly the alias-named links, so a refresh is idempotent.
//! The per-installation farm puts one link per alias at the root of an
//! installation, each pointing at the real binary found under `dist/bin`;
//! an alias with no matching binary is silently skipped.  Creating,
//! removing and searching for the actual symbolic links on disk is the
//! unverified shell's work; this module decides what the farms contain.

use vstd::prelude::*;
use vstd::seq_lib::*;

use crate::text::path_join;
use crate::text::str_eq;

verus! {

/// A symbolic link: the path it is created at and the path it points to.
pub struct Link {
    pub name: String,
    pub target: String,
}

/// A link at the specification level.
pub struct LinkModel {
    pub name: Seq<char>,
    pub target: Seq<char>,
}

pub open spec fn link_model(l: Link) -> LinkModel {
    LinkModel { name: l.name@, target: l.target@ }
}

pub open spec fn links_model(ls: Seq<Link>) -> Seq<LinkModel> {
    ls.map_values(|l: Link| link_model(l))
}

/// The fixed set of toolchain entry points reachable through shims.  The
/// set is compiled in, not derived from an installation's contents.
pub open spec fn spec_bins() -> Seq<Seq<char>> {
    seq![
        "ct_run"@,
        "dialyzer"@,
        "epmd"@,
        "erl"@,
        "erlc"@,
        "erl_call"@,
        "escript"@,
        "run_erl"@,
        "run_test"@,
        "to_erl"@,
        "typer"@,
    ]
}

/// The alias names, in the fixed order of `spec_bins`.
pub fn bins() -> (v: Vec<&'static str>)
    ensures
        v.deep_view() == spec_bins(),
{
    let mut v: Vec<&'static str> = Vec::new();
    v.push("ct_run");
    v.push("dialyzer");
    v.push("epmd");
    v.push("erl");
    v.push("erlc");
    v.push("erl_call");
    v.push("escript");
    v.push("run_erl");
    v.push("run_test");
    v.push("to_erl");
    v.push("typer");
    proof {
        assert(v.deep_view() =~= spec_bins());
    }
    v
}

/// Whether a name is one of the fixed alias names.
pub open spec fn is_alias(name: Seq<char>) -> bool {
    spec_bins().contains(name)
}

fn name_is_alias(name: &str) -> (r: bool)
    ensures
        r == is_alias(name@),
{
    let bs = bins();
    let mut i: usize = 0;
    while i < bs.len()
        invariant
            i <= bs@.len(),
            bs.deep_view() == spec_bins(),
            forall|j: int| 0 <= j < i ==> spec_bins()[j] != name@,
        decreases bs@.len() - i,
    {
        if str_eq(bs[i], name) {
            proof {
                assert(spec_bins()[i as int] == bs@[i as int]@);
            }
            return true;
        }
        proof {
            assert(spec_bins()[i as int] == bs@[i as int]@);
        }
        i = i + 1;
    }
    proof {
        assert(!spec_bins().contains(name@));
    }
    false
}

/// What every alias link of the global farm becomes: a link to the
/// management executable.
pub open spec fn alias_links(bin_path: Seq<char>) -> Seq<LinkModel> {
    spec_bins().map_values(|n: Seq<char>| LinkModel { name: n, target: bin_path })
}

/// The links directory after a refresh: every alias-named link removed and
/// recreated pointing at `bin_path`; links with other names are untouched.
pub open spec fn spec_refresh(links: Seq<LinkModel>, bin_path: Seq<char>) -> Seq<LinkModel> {
    links.filter(|l: LinkModel| !is_alias(l.name)) + alias_links(bin_path)
}

/// Refreshes the global shim farm: given the links currently in the shared
/// directory, yields the links it holds afterwards.  A prior alias link is
/// removed whether or not it is there (a missing one is tolerated) and
/// recreated pointing at the management executable `bin_path`.
pub fn update_bins(bin_path: &str, links: &Vec<Link>) -> (r: Vec<Link>)
    ensures
        links_model(r@) == spec_refresh(links_model(links@), bin_path@),
{
    let ghost pred = |l: LinkModel| !is_alias(l.name);
    let mut r: Vec<Link> = Vec::new();
    proof {
        assert(links_model(r@) =~= links_model(links@).take(0).filter(pred));
    }
    let mut i: usize = 0;
    while i < links.len()
        invariant
            i <= links@.len(),
            pred == (|l: LinkModel| !is_alias(l.name)),
            links_model(r@) == links_model(links@).take(i as int).filter(pred),
        decreases links@.len() - i,
    {
        let ghost taken = links_model(links@).take(i as int);
        let ghost cur = link_model(links@[i as int]);
        proof {
            assert(links_model(links@).take(i + 1) =~= taken.push(cur));
            taken.lemma_filter_push(cur, pred);
        }
        if !name_is_alias(links[i].name.as_str()) {
            let kept = Link { name: links[i].name.clone(), target: links[i].target.clone() };
            let ghost before = links_model(r@);
            r.push(kept);
            proof {
                assert(links_model(r@) =~= before.push(cur));
            }
        }
        i = i + 1;
    }
    proof {
        assert(links_model(links@).take(links@.len() as int) =~= links_model(links@));
    }
    let bs = bins();
    let ghost kept_links = links_model(links@).filter(pred);
    let mut k: usize = 0;
    while k < bs.len()
        invariant
            k <= bs@.len(),
            bs.deep_view() == spec_bins(),
            links_model(r@) == kept_links + alias_links(bin_path@).take(k as int),
        decreases bs@.len() - k,
    {
        let ghost before = links_model(r@);
        r.push(Link { name: bs[k].to_owned(), target: bin_path.to_owned() });
        proof {
            assert(spec_bins()[k as int] == bs@[k as int]@);
            assert(alias_links(bin_path@)[k as int] == link_model(r@.last()));
            assert(links_model(r@) =~= before.push(alias_links(bin_path@)[k as int]));
            assert(kept_links + alias_links(bin_path@).take(k + 1) =~= (kept_links + alias_links(
                bin_path@,
            ).take(k as int)).push(alias_links(bin_path@)[k as int]));
        }
        k = k + 1;
    }
    proof {
        assert(alias_links(bin_path@).take(spec_bins().len() as int) =~= alias_links(bin_path@));
    }
    r
}

proof fn lemma_filter_all_pos(s: Seq<LinkModel>, pred: spec_fn(LinkModel) -> bool)
    requires
        forall|i: int| 0 <= i < s.len() ==> pred(#[trigger] s[i]),
    ensures
        s.filter(pred) == s,
    decreases s.len(),
{
    reveal(Seq::filter);
    if s.len() > 0 {
        assert forall|i: int| 0 <= i < s.drop_last().len() implies pred(
            #[trigger] s.drop_last()[i],
        ) by {
            assert(s.drop_last()[i] == s[i]);
        }
        lemma_filter_all_pos(s.drop_last(), pred);
        assert(pred(s.last()));
        assert(s.drop_last().push(s.last()) =~= s);
    }
}

/// Refreshing the shim farm twice in a row yields the identical link set
/// as refreshing it once.
pub proof fn lemma_refresh_idempotent(links: Seq<LinkModel>, bin_path: Seq<char>)
    ensures
        spec_refresh(spec_refresh(links, bin_path), bin_path) == spec_refresh(links, bin_path),
{
    let pred = |l: LinkModel| !is_alias(l.name);
    let kept = links.filter(pred);
    let fresh = alias_links(bin_path);
    Seq::filter_distributes_over_add(kept, fresh, pred);
    assert forall|i: int| 0 <= i < kept.len() implies pred(#[trigger] kept[i]) by {
        links.lemma_filter_pred(pred, i);
    }
    lemma_filter_all_pos(kept, pred);
    assert(fresh.all(|x: LinkModel| !pred(x))) by {
        assert forall|i: int| 0 <= i < fresh.len() implies !pred(#[trigger] fresh[i]) by {
            assert(fresh[i].name == spec_bins()[i]);
            assert(spec_bins().contains(spec_bins()[i]));
        }
    }
    fresh.lemma_all_neg_filter_empty(pred);
    assert(fresh.filter(pred) =~= Seq::<LinkModel>::empty());
    assert((kept + fresh).filter(pred) =~= kept);
    assert(spec_refresh(spec_refresh(links, bin_path), bin_path) =~= spec_refresh(
        links,
        bin_path,
    ));
}

/// The per-installation links when, for each alias in order, the real
/// binary was found at the given path (or not found at all): one link at
/// `<install_dir>/<alias>` per found alias, in alias order.
pub open spec fn spec_install_links(
    install_dir: Seq<char>,
    names: Seq<Seq<char>>,
    found: Seq<Option<Seq<char>>>,
) -> Seq<LinkModel>
    decreases names.len(),
{
    if names.len() == 0 {
        Seq::empty()
    } else {
        let rest = spec_install_links(install_dir, names.drop_last(), found.drop_last());
        match found[names.len() - 1] {
            Some(t) => rest.push(
                LinkModel { name: install_dir + "/"@ + names.last(), target: t },
            ),
            None => rest,
        }
    }
}

/// Builds the per-installation shim farm from what the search under
/// `dist/bin` found for each alias: a link at the installation root for
/// every found alias, pointing at its real binary; the rest are skipped.
pub fn setup_links(install_dir: &str, found: &Vec<Option<String>>) -> (r: Vec<Link>)
    requires
        found@.len() == spec_bins().len(),
    ensures
        links_model(r@) == spec_install_links(install_dir@, spec_bins(), found.deep_view()),
{
    let bs = bins();
    let mut r: Vec<Link> = Vec::new();
    proof {
        assert(spec_bins().take(0) =~= Seq::<Seq<char>>::empty());
        assert(links_model(r@) =~= spec_install_links(
            install_dir@,
            spec_bins().take(0),
            found.deep_view().take(0),
        ));
    }
    let mut k: usize = 0;
    while k < bs.len()
        invariant
            k <= bs@.len(),
            bs.deep_view() == spec_bins(),
            found@.len() == spec_bins().len(),
            links_model(r@) == spec_install_links(
                install_dir@,
                spec_bins().take(k as int),
                found.deep_view().take(k as int),
            ),
        decreases bs@.len() - k,
    {
        let ghost names_next = spec_bins().take(k + 1);
        let ghost found_next = found.deep_view().take(k + 1);
        proof {
            assert(names_next.drop_last() =~= spec_bins().take(k as int));
            assert(found_next.drop_last() =~= found.deep_view().take(k as int));
            assert(names_next.last() == spec_bins()[k as int]);
            assert(found_next[names_next.len() - 1] == found.deep_view()[k as int]);
            assert(spec_bins()[k as int] == bs@[k as int]@);
        }
        match &found[k] {
            Some(target) => {
                let ghost before = links_model(r@);
                let name = path_join(install_dir, bs[k]);
                r.push(Link { name, target: target.clone() });
                proof {
                    assert(found.deep_view()[k as int] == Some(found@[k as int]->Some_0@));
                    assert(links_model(r@) =~= before.push(link_model(r@.last())));
                }
            },
            None => {
                proof {
                    assert(found.deep_view()[k as int] == None::<Seq<char>>);
                }
            },
        }
        k = k + 1;
    }
    proof {
        assert(spec_bins().take(spec_bins().len() as int) =~= spec_bins());
        assert(found.deep_view().take(spec_bins().len() as int) =~= found.deep_view());
    }
    r
}

/// The pattern the shell searches to locate an alias's real binary under
/// an installation: `<install_dir>/dist/bin/<alias>`.  A pattern search is
/// used because the exact path can vary by platform and build.
pub fn glob_pattern(install_dir: &str, alias: &str) -> (r: String)
    ensures
        r@ == install_dir@ + "/"@ + "dist"@ + "/"@ + "bin"@ + "/"@ + alias@,
{
    let d = path_join(install_dir, "dist");
    let b = path_join(d.as_str(), "bin");
    path_join(b.as_str(), alias)
}

} // verus!
