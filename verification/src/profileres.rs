use crate::chars::{append_str, chars_of, dec_text, find_sub, find_sub_exec, push_decimal, slice_chars, string_from, string_of};
use crate::elements::lemma_find_sub_bound;
use crate::globmatch::{compile_glob, glob_match, glob_matches, glob_valid, CompiledGlob};
use crate::profiles::{ResolvedLibrary, ResolvedModule};
use crate::repomanager::{
    all_modules, group_entries, groups_get_index, groups_len, opt_view, LibraryRow, ModuleRow, RepoManager, StagedModule,
    StagingFocus,
};
use vstd::prelude::*;

verus! {

/// The selector of a profile listing line `kind: selector`: what follows the first `: `.
pub open spec fn selector_of(line: Seq<char>) -> Option<Seq<char>> {
    let i = find_sub(line, seq![':', ' ']);
    if i >= 0 {
        Some(line.skip(i + 2))
    } else {
        None
    }
}

/// The selectors of the lines that have one, in order.
pub open spec fn selectors_of(lines: Seq<Seq<char>>) -> Seq<Seq<char>>
    decreases lines.len(),
{
    if lines.len() == 0 {
        Seq::empty()
    } else {
        let r = selectors_of(lines.drop_last());
        match selector_of(lines.last()) {
            Some(s) => r.push(s),
            None => r,
        }
    }
}

/// The selectors of a profile's listing lines, see `selectors_of`.
pub fn profile_selectors(lines: &Vec<String>) -> (r: Vec<String>)
    ensures
        r.deep_view() == selectors_of(lines.deep_view()),
{
    let ghost lv = lines.deep_view();
    let sep = chars_of(": ");
    proof {
        reveal_strlit(": ");
        assert(sep@ =~= seq![':', ' ']);
    }
    let mut out: Vec<String> = Vec::new();
    let mut i: usize = 0;
    while i < lines.len()
        invariant
            i <= lines@.len(),
            lv == lines.deep_view(),
            sep@ == seq![':', ' '],
            out.deep_view() == selectors_of(lv.take(i as int)),
        decreases lines@.len() - i,
    {
        proof {
            assert(lv.take(i as int + 1).drop_last() =~= lv.take(i as int));
            assert(lv.take(i as int + 1).last() == lines@[i as int]@);
        }
        let v = chars_of(lines[i].as_str());
        match find_sub_exec(&v, &sep) {
            Some(p) => {
                proof {
                    lemma_find_sub_bound(v@, sep@);
                    assert(sep@.len() == 2);
                    assert(find_sub(v@, sep@) == p as int);
                    assert(p + 2 <= v@.len());
                }
                let n = v.len();
                let s = slice_chars(&v, p + 2, n);
                let ghost o = out.deep_view();
                out.push(string_of(&s));
                assert(out.deep_view() =~= o.push(v@.skip(p + 2)));
            },
            None => {},
        }
        i = i + 1;
    }
    assert(lv.take(lines@.len() as int) =~= lv);
    out
}

/// Whether a selector, as a glob pattern, matches a name (an invalid pattern matches nothing).
pub open spec fn glob_hit(sel: Seq<char>, name: Seq<char>) -> bool {
    glob_valid(sel) && glob_matches(sel, name)
}

/// A resolved module: name, version (empty when unknown), description, selector.
pub open spec fn resolved_module_view(m: ResolvedModule) -> (Seq<char>, Seq<char>, Seq<char>, Seq<char>) {
    (m.name@, m.version@, m.descr@, m.selector@)
}

pub open spec fn resolved_module_views(v: Seq<ResolvedModule>) -> Seq<(Seq<char>, Seq<char>, Seq<char>, Seq<char>)> {
    v.map_values(|m: ResolvedModule| resolved_module_view(m))
}

/// The modules that a selector matches, in order, as resolved modules.
pub open spec fn modules_for(rows: Seq<ModuleRow>, sel: Seq<char>) -> Seq<(Seq<char>, Seq<char>, Seq<char>, Seq<char>)>
    decreases rows.len(),
{
    if rows.len() == 0 {
        Seq::empty()
    } else {
        let r = modules_for(rows.drop_last(), sel);
        let m = rows.last();
        if glob_hit(sel, m.name@) {
            r.push(
                (
                    m.name@,
                    match opt_view(m.version) {
                        Some(v) => v,
                        None => Seq::empty(),
                    },
                    m.descr@,
                    sel,
                ),
            )
        } else {
            r
        }
    }
}

/// The modules of a profile: for each selector in turn, the modules it matches.
pub open spec fn resolved_modules(sels: Seq<Seq<char>>, rows: Seq<ModuleRow>) -> Seq<(Seq<char>, Seq<char>, Seq<char>, Seq<char>)>
    decreases sels.len(),
{
    if sels.len() == 0 {
        Seq::empty()
    } else {
        resolved_modules(sels.drop_last(), rows) + modules_for(rows, sels.last())
    }
}

/// A resolved library: name, kind, checksum, selector.
pub open spec fn resolved_library_views(v: Seq<ResolvedLibrary>) -> Seq<(Seq<char>, Seq<char>, Seq<char>, Seq<char>)> {
    v.map_values(|l: ResolvedLibrary| (l.name@, l.kind@, l.checksum@, l.selector@))
}

/// The libraries that a selector matches, in order, as resolved libraries.
pub open spec fn libraries_for(rows: Seq<LibraryRow>, sel: Seq<char>) -> Seq<(Seq<char>, Seq<char>, Seq<char>, Seq<char>)>
    decreases rows.len(),
{
    if rows.len() == 0 {
        Seq::empty()
    } else {
        let r = libraries_for(rows.drop_last(), sel);
        let l = rows.last();
        if glob_hit(sel, l.name@) { r.push((l.name@, l.kind@, l.checksum@, sel)) } else { r }
    }
}

/// The libraries of a profile: for each selector in turn, the libraries it matches.
pub open spec fn resolved_libraries(sels: Seq<Seq<char>>, rows: Seq<LibraryRow>) -> Seq<(Seq<char>, Seq<char>, Seq<char>, Seq<char>)>
    decreases sels.len(),
{
    if sels.len() == 0 {
        Seq::empty()
    } else {
        resolved_libraries(sels.drop_last(), rows) + libraries_for(rows, sels.last())
    }
}

/// Whether a compiled pattern (none for an invalid selector) matches a name.
fn hit(g: &Option<CompiledGlob>, sel: &Vec<char>, name: &str) -> (r: bool)
    requires
        g is Some <==> glob_valid(sel@),
        g matches Some(c) ==> c.source() == sel@,
    ensures
        r == glob_hit(sel@, name@),
{
    match g {
        Some(c) => glob_match(c, name),
        None => false,
    }
}

impl RepoManager {
    /// The modules that a profile's listing lines select, see `resolved_modules`: each selector
    /// is matched, as a glob pattern, against the names of every module of the groups.
    pub fn resolve_profile_modules(&self, lines: &Vec<String>) -> (r: Vec<ResolvedModule>)
        ensures
            resolved_module_views(r@) == resolved_modules(selectors_of(lines.deep_view()), all_modules(group_entries(self.module_groups))),
    {
        let sels = profile_selectors(lines);
        let ghost sv = sels.deep_view();
        let ghost rows = all_modules(group_entries(self.module_groups));
        let ghost es = group_entries(self.module_groups);
        let mut out: Vec<ResolvedModule> = Vec::new();
        let mut k: usize = 0;
        let n = groups_len(&self.module_groups);
        while k < sels.len()
            invariant
                k <= sels@.len(),
                sv == sels.deep_view(),
                es == group_entries(self.module_groups),
                rows == all_modules(es),
                n == es.len(),
                resolved_module_views(out@) == resolved_modules(sv.take(k as int), rows),
            decreases sels@.len() - k,
        {
            let sel = chars_of(sels[k].as_str());
            let g = compile_glob(sels[k].as_str());
            let ghost before = resolved_module_views(out@);
            let mut gi: usize = 0;
            while gi < n
                invariant
                    gi <= n,
                    n == es.len(),
                    es == group_entries(self.module_groups),
                    sel@ == sv[k as int],
                    g is Some <==> glob_valid(sel@),
                    g matches Some(c) ==> c.source() == sel@,
                    resolved_module_views(out@) == before + modules_for(all_modules(es.take(gi as int)), sel@),
                decreases n - gi,
            {
                let (_, group) = groups_get_index(&self.module_groups, gi).unwrap();
                let ghost base = all_modules(es.take(gi as int));
                let mut ri: usize = 0;
                while ri < group.len()
                    invariant
                        ri <= group@.len(),
                        gi < n,
                        n == es.len(),
                        group@ == es[gi as int].1,
                        sel@ == sv[k as int],
                        g is Some <==> glob_valid(sel@),
                        g matches Some(c) ==> c.source() == sel@,
                        resolved_module_views(out@) == before + modules_for(base + group@.take(ri as int), sel@),
                    decreases group@.len() - ri,
                {
                    let m = &group[ri];
                    proof {
                        assert((base + group@.take(ri as int + 1)).drop_last() =~= base + group@.take(ri as int));
                        assert((base + group@.take(ri as int + 1)).last() == group@[ri as int]);
                    }
                    if hit(&g, &sel, m.name.as_str()) {
                        let version = match &m.version {
                            Some(v) => string_from(v.as_str()),
                            None => String::new(),
                        };
                        let ghost o = resolved_module_views(out@);
                        out.push(
                            ResolvedModule {
                                name: string_from(m.name.as_str()),
                                version,
                                descr: string_from(m.descr.as_str()),
                                selector: string_of(&sel),
                            },
                        );
                        assert(resolved_module_views(out@) =~= o.push(
                            (
                                m.name@,
                                match opt_view(m.version) {
                                    Some(v) => v,
                                    None => Seq::empty(),
                                },
                                m.descr@,
                                sel@,
                            ),
                        ));
                        assert(before + modules_for(base + group@.take(ri as int + 1), sel@) =~= o.push(
                            (
                                m.name@,
                                match opt_view(m.version) {
                                    Some(v) => v,
                                    None => Seq::empty(),
                                },
                                m.descr@,
                                sel@,
                            ),
                        ));
                    }
                    ri = ri + 1;
                }
                proof {
                    assert(group@.take(group@.len() as int) =~= group@);
                    assert(es.take(gi as int + 1).drop_last() =~= es.take(gi as int));
                    assert(es.take(gi as int + 1).last() == es[gi as int]);
                }
                gi = gi + 1;
            }
            proof {
                assert(es.take(n as int) =~= es);
                assert(sv.take(k as int + 1).drop_last() =~= sv.take(k as int));
                assert(sv.take(k as int + 1).last() == sv[k as int]);
            }
            k = k + 1;
        }
        assert(sv.take(sels@.len() as int) =~= sv);
        out
    }

    /// The libraries that a profile's listing lines select, see `resolved_libraries`.
    pub fn resolve_profile_libraries(&self, lines: &Vec<String>) -> (r: Vec<ResolvedLibrary>)
        ensures
            resolved_library_views(r@) == resolved_libraries(selectors_of(lines.deep_view()), self.lib_rows@),
    {
        let sels = profile_selectors(lines);
        let ghost sv = sels.deep_view();
        let mut out: Vec<ResolvedLibrary> = Vec::new();
        let mut k: usize = 0;
        while k < sels.len()
            invariant
                k <= sels@.len(),
                sv == sels.deep_view(),
                resolved_library_views(out@) == resolved_libraries(sv.take(k as int), self.lib_rows@),
            decreases sels@.len() - k,
        {
            let sel = chars_of(sels[k].as_str());
            let g = compile_glob(sels[k].as_str());
            let ghost before = resolved_library_views(out@);
            let mut ri: usize = 0;
            while ri < self.lib_rows.len()
                invariant
                    ri <= self.lib_rows@.len(),
                    sel@ == sv[k as int],
                    g is Some <==> glob_valid(sel@),
                    g matches Some(c) ==> c.source() == sel@,
                    resolved_library_views(out@) == before + libraries_for(self.lib_rows@.take(ri as int), sel@),
                decreases self.lib_rows@.len() - ri,
            {
                let l = &self.lib_rows[ri];
                proof {
                    assert(self.lib_rows@.take(ri as int + 1).drop_last() =~= self.lib_rows@.take(ri as int));
                }
                if hit(&g, &sel, l.name.as_str()) {
                    let ghost o = resolved_library_views(out@);
                    out.push(
                        ResolvedLibrary {
                            name: string_from(l.name.as_str()),
                            kind: string_from(l.kind.as_str()),
                            checksum: string_from(l.checksum.as_str()),
                            selector: string_of(&sel),
                        },
                    );
                    assert(resolved_library_views(out@) =~= o.push((l.name@, l.kind@, l.checksum@, sel@)));
                }
                ri = ri + 1;
            }
            proof {
                assert(self.lib_rows@.take(self.lib_rows@.len() as int) =~= self.lib_rows@);
                assert(sv.take(k as int + 1).drop_last() =~= sv.take(k as int));
            }
            k = k + 1;
        }
        assert(sv.take(sels@.len() as int) =~= sv);
        out
    }
}

/// Whether some module has the staged row's name and version.
pub open spec fn known_module(rows: Seq<ModuleRow>, s: StagedModule) -> bool {
    exists|j: int| 0 <= j < rows.len() && rows[j].name@ == s.name@ && opt_view(rows[j].version) == opt_view(s.version)
}

/// The staged rows that no module of the index has already, in order.
pub open spec fn new_staged(rows: Seq<ModuleRow>, staged: Seq<StagedModule>) -> Seq<StagedModule>
    decreases staged.len(),
{
    if staged.len() == 0 {
        staged
    } else {
        let r = new_staged(rows, staged.drop_last());
        if known_module(rows, staged.last()) { r } else { r.push(staged.last()) }
    }
}

/// No indexed module has both the staged row's name and its version.
pub open spec fn unindexed(rows: Seq<ModuleRow>) -> spec_fn(StagedModule) -> bool {
    |s: StagedModule| forall|j: int| 0 <= j < rows.len() ==> !(#[trigger] rows[j].name@ == s.name@ && opt_view(rows[j].version) == opt_view(s.version))
}

/// Law: deduplicating the staged rows against the index keeps exactly, and in their order,
/// the rows for which no indexed module has both the same name and the same version. So a
/// kept row matches no indexed module on name and version, a dropped row matches one, and a
/// row whose name no indexed module carries is always kept.
pub proof fn law_dedup_keeps_unindexed(rows: Seq<ModuleRow>, staged: Seq<StagedModule>)
    ensures
        new_staged(rows, staged) == staged.filter(unindexed(rows)),
        forall|i: int|
            0 <= i < staged.len() ==> (new_staged(rows, staged).contains(#[trigger] staged[i]) <==> forall|j: int|
                0 <= j < rows.len() ==> !(rows[j].name@ == staged[i].name@ && opt_view(rows[j].version) == opt_view(staged[i].version))),
        forall|i: int|
            0 <= i < staged.len() && (forall|j: int| 0 <= j < rows.len() ==> rows[j].name@ != staged[i].name@) ==> new_staged(
                rows,
                staged,
            ).contains(#[trigger] staged[i]),
    decreases staged.len(),
{
    lemma_new_staged_filter(rows, staged);
    let f = staged.filter(unindexed(rows));
    assert forall|i: int|
        0 <= i < staged.len() implies (new_staged(rows, staged).contains(#[trigger] staged[i]) <==> forall|j: int|
        0 <= j < rows.len() ==> !(rows[j].name@ == staged[i].name@ && opt_view(rows[j].version) == opt_view(staged[i].version))) by {
        if unindexed(rows)(staged[i]) {
            staged.lemma_filter_contains(unindexed(rows), i);
        } else {
            if f.contains(staged[i]) {
                let k = choose|k: int| 0 <= k < f.len() && f[k] == staged[i];
                staged.lemma_filter_pred(unindexed(rows), k);
            }
        }
    }
    assert forall|i: int|
        0 <= i < staged.len() && (forall|j: int| 0 <= j < rows.len() ==> rows[j].name@ != staged[i].name@) implies new_staged(
        rows,
        staged,
    ).contains(#[trigger] staged[i]) by {
        assert(unindexed(rows)(staged[i]));
        staged.lemma_filter_contains(unindexed(rows), i);
    }
}

proof fn lemma_new_staged_filter(rows: Seq<ModuleRow>, staged: Seq<StagedModule>)
    ensures
        new_staged(rows, staged) == staged.filter(unindexed(rows)),
    decreases staged.len(),
{
    reveal(Seq::filter);
    if staged.len() > 0 {
        lemma_new_staged_filter(rows, staged.drop_last());
        let s = staged.last();
        if known_module(rows, s) {
            let j = choose|j: int| 0 <= j < rows.len() && rows[j].name@ == s.name@ && opt_view(rows[j].version) == opt_view(s.version);
            assert(!unindexed(rows)(s));
        } else {
            assert(unindexed(rows)(s));
        }
    }
}

fn same_opt(a: &Option<String>, b: &Option<String>) -> (r: bool)
    ensures
        r == (opt_view(*a) == opt_view(*b)),
{
    match (a, b) {
        (Some(x), Some(y)) => crate::chars::chars_eq(&chars_of(x.as_str()), &chars_of(y.as_str())),
        (None, None) => true,
        _ => false,
    }
}

impl RepoManager {
    /// Whether a module of the groups has the staged row's name and version.
    fn is_known(&self, s: &StagedModule) -> (r: bool)
        ensures
            r == known_module(all_modules(group_entries(self.module_groups)), *s),
    {
        let ghost es = group_entries(self.module_groups);
        let ghost rows = all_modules(es);
        let n = groups_len(&self.module_groups);
        let sn = chars_of(s.name.as_str());
        let mut gi: usize = 0;
        while gi < n
            invariant
                gi <= n,
                n == es.len(),
                es == group_entries(self.module_groups),
                sn@ == s.name@,
                !known_module(all_modules(es.take(gi as int)), *s),
            decreases n - gi,
        {
            let (_, group) = groups_get_index(&self.module_groups, gi).unwrap();
            let ghost base = all_modules(es.take(gi as int));
            let mut ri: usize = 0;
            while ri < group.len()
                invariant
                    ri <= group@.len(),
                    group@ == es[gi as int].1,
                    gi < n,
                    n == es.len(),
                    sn@ == s.name@,
                    es == group_entries(self.module_groups),
                    base == all_modules(es.take(gi as int)),
                    !known_module(base + group@.take(ri as int), *s),
                    !known_module(base, *s),
                decreases group@.len() - ri,
            {
                let m = &group[ri];
                if crate::chars::chars_eq(&chars_of(m.name.as_str()), &sn) && same_opt(&m.version, &s.version) {
                    proof {
                        let all = all_modules(es);
                        lemma_all_modules_split(es, gi as int);
                        let b = all_modules(es.take(gi as int + 1));
                        assert(b == base + group@);
                        assert(b[base.len() + ri] == group@[ri as int]);
                        assert(all[base.len() + ri] == b[base.len() + ri]);
                    }
                    return true;
                }
                proof {
                    let t = base + group@.take(ri as int + 1);
                    assert forall|j: int| 0 <= j < t.len() implies !(t[j].name@ == s.name@ && opt_view(t[j].version) == opt_view(
                        s.version,
                    )) by {
                        if j < base.len() + ri {
                            assert(t[j] == (base + group@.take(ri as int))[j]);
                        } else {
                            assert(t[j] == m);
                        }
                    }
                }
                ri = ri + 1;
            }
            proof {
                assert(group@.take(group@.len() as int) =~= group@);
                assert(es.take(gi as int + 1).drop_last() =~= es.take(gi as int));
                assert(all_modules(es.take(gi as int + 1)) =~= base + group@);
            }
            gi = gi + 1;
        }
        proof {
            assert(es.take(n as int) =~= es);
        }
        false
    }

    /// Drops the staged rows that a module of the index already has (same name and version).
    pub fn dedup_staged_modules(&self, staged: &mut Vec<StagedModule>)
        ensures
            final(staged)@ == new_staged(all_modules(group_entries(self.module_groups)), old(staged)@),
    {
        let ghost rows = all_modules(group_entries(self.module_groups));
        let ghost orig = staged@;
        let mut rest: Vec<StagedModule> = Vec::new();
        std::mem::swap(&mut rest, staged);
        let ghost mut k: int = 0;
        while rest.len() > 0
            invariant
                0 <= k <= orig.len(),
                rest@ == orig.skip(k),
                staged@ == new_staged(rows, orig.take(k)),
                rows == all_modules(group_entries(self.module_groups)),
            decreases rest@.len(),
        {
            let s = rest.remove(0);
            proof {
                assert(orig.take(k + 1).drop_last() =~= orig.take(k));
                assert(orig.take(k + 1).last() == s);
            }
            if !self.is_known(&s) {
                staged.push(s);
            }
            proof {
                assert(rest@ =~= orig.skip(k + 1));
                k = k + 1;
            }
        }
        assert(orig.take(k) =~= orig);
    }

    /// Stages the modules found in a directory: an error when none was found, or when every
    /// one is already in the index (saying how many were skipped); otherwise the staging dialog
    /// opens on the new ones.
    pub fn stage_scanned_modules(&mut self, staged: Vec<StagedModule>) -> (r: Result<(), String>)
        ensures
            ({
                let fresh = new_staged(all_modules(group_entries(old(self).module_groups)), staged@);
                if staged@.len() == 0 {
                    r is Err && r->Err_0@ == "No .spec files found in the selected directory"@ && *final(self) == *old(self)
                } else if fresh.len() == 0 {
                    r is Err && r->Err_0@ == "No new modules found, "@ + dec_text(staged@.len()) + " skipped"@ && *final(self)
                        == *old(self)
                } else {
                    r is Ok && final(self).staged@ == fresh && *final(self) == (RepoManager {
                        staged: final(self).staged,
                        staging_cursor: 0,
                        staging_scroll: 0,
                        staging_focus: StagingFocus::List,
                        staging: true,
                        ..*old(self)
                    })
                }
            }),
    {
        if staged.len() == 0 {
            return Err(string_from("No .spec files found in the selected directory"));
        }
        let total = staged.len();
        let mut staged = staged;
        self.dedup_staged_modules(&mut staged);
        if staged.len() == 0 {
            let mut v = chars_of("No new modules found, ");
            push_decimal(&mut v, total as u64);
            append_str(&mut v, " skipped");
            return Err(string_of(&v));
        }
        self.enter_staging(staged);
        Ok(())
    }
}

proof fn lemma_all_modules_split(es: Seq<(Seq<char>, Seq<ModuleRow>)>, gi: int)
    requires
        0 <= gi < es.len(),
    ensures
        all_modules(es.take(gi + 1)) == all_modules(es.take(gi)) + es[gi].1,
        forall|j: int| 0 <= j < all_modules(es.take(gi + 1)).len() ==> all_modules(es)[j] == #[trigger] all_modules(es.take(gi + 1))[j],
        all_modules(es.take(gi + 1)).len() <= all_modules(es).len(),
    decreases es.len() - gi,
{
    assert(es.take(gi + 1).drop_last() =~= es.take(gi));
    lemma_all_modules_prefix_eq(es, gi + 1);
}

proof fn lemma_all_modules_prefix_eq(es: Seq<(Seq<char>, Seq<ModuleRow>)>, k: int)
    requires
        0 <= k <= es.len(),
    ensures
        all_modules(es.take(k)).len() <= all_modules(es).len(),
        forall|j: int| 0 <= j < all_modules(es.take(k)).len() ==> all_modules(es)[j] == #[trigger] all_modules(es.take(k))[j],
    decreases es.len() - k,
{
    if k < es.len() {
        lemma_all_modules_prefix_eq(es, k + 1);
        assert(es.take(k + 1).drop_last() =~= es.take(k));
        let a = all_modules(es.take(k));
        let b = all_modules(es.take(k + 1));
        assert(b == a + es[k].1);
        assert forall|j: int| 0 <= j < a.len() implies all_modules(es)[j] == #[trigger] a[j] by {
            assert(b[j] == a[j]);
        }
    } else {
        assert(es.take(k) =~= es);
    }
}

} // verus!
