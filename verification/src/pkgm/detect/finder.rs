//! The detector: an explicit override first, then the cache, then the marker
//! files up the tree.

use super::cache::{cached_for, get_cached_manager, set_cached_manager, DetectionCache};
use super::config::{builtin_rules, configurations, names, rule_views, DetectionConfig, RuleView};
use super::path::{Listing, TreePath};
use crate::pkgm::registry::{create_manager, ManagerRegistry};
use crate::pkgm::types::{type_label, ManagerType, PackageManager};
use crate::text::str_eq;
use crate::utils::error::{Error, ErrorView};
use vstd::prelude::*;

verus! {

/// The path of `target` in the directory `level` components below the root
/// on the way to `dir`.
pub open spec fn candidate(dir: Seq<Seq<char>>, level: int, target: Seq<char>) -> Seq<Seq<char>> {
    dir.take(level).push(target)
}

/// Target number `j` exists `level` components below the root on the way to
/// `dir`.
pub open spec fn found_at(
    dir: Seq<Seq<char>>,
    targets: Seq<Seq<char>>,
    files: Set<Seq<Seq<char>>>,
    level: int,
    j: int,
) -> bool {
    0 <= level <= dir.len() && 0 <= j < targets.len() && files.contains(
        candidate(dir, level, targets[j]),
    )
}

/// One of the targets exists in `dir` or in a directory above it.
pub open spec fn found_above(
    dir: Seq<Seq<char>>,
    targets: Seq<Seq<char>>,
    files: Set<Seq<Seq<char>>>,
) -> bool {
    exists|level: int, j: int| found_at(dir, targets, files, level, j)
}

/// Target number `j` at `level` is the first that a walk from `dir` up to the
/// root comes upon: nothing is found deeper, and no earlier target at the
/// same level.
pub open spec fn first_found(
    dir: Seq<Seq<char>>,
    targets: Seq<Seq<char>>,
    files: Set<Seq<Seq<char>>>,
    level: int,
    j: int,
) -> bool {
    &&& found_at(dir, targets, files, level, j)
    &&& forall|l: int, k: int| #[trigger]
        found_at(dir, targets, files, l, k) ==> l < level || (l == level && j <= k)
}

/// Walks from `dir` up to the root and, in each directory, through the
/// targets in order. Returns the path of the first target that exists.
pub fn find_up(dir: &TreePath, targets: &[&str], files: &Listing) -> (found: Option<TreePath>)
    ensures
        found is None <==> !found_above(dir@, names(targets@), files@),
        found matches Some(path) ==> exists|level: int, j: int|
            first_found(dir@, names(targets@), files@, level, j) && path@ == candidate(
                dir@,
                level,
                names(targets@)[j],
            ),
{
    let mut current_dir = dir.duplicate();
    let mut at_root = false;
    assert(dir@.take(dir@.len() as int) =~= dir@);
    while !at_root
        invariant
            current_dir@.len() <= dir@.len(),
            current_dir@ == dir@.take(current_dir@.len() as int),
            forall|l: int, k: int|
                l > current_dir@.len() ==> !#[trigger] found_at(
                    dir@,
                    names(targets@),
                    files@,
                    l,
                    k,
                ),
            at_root ==> !found_above(dir@, names(targets@), files@),
        decreases current_dir@.len() + (if at_root { 0int } else { 1int }),
    {
        let ghost level = current_dir@.len() as int;
        let mut j: usize = 0;
        while j < targets.len()
            invariant
                j <= targets@.len(),
                level == current_dir@.len(),
                level <= dir@.len(),
                current_dir@ == dir@.take(level),
                forall|l: int, k: int|
                    l > level ==> !#[trigger] found_at(dir@, names(targets@), files@, l, k),
                forall|k: int|
                    0 <= k < j ==> !#[trigger] found_at(dir@, names(targets@), files@, level, k),
            decreases targets@.len() - j,
        {
            let path = current_dir.join(targets[j]);
            assert(path@ == candidate(dir@, level, names(targets@)[j as int]));
            if files.has(&path) {
                assert(first_found(dir@, names(targets@), files@, level, j as int));
                return Some(path);
            }
            j += 1;
        }
        if !current_dir.pop() {
            at_root = true;
            assert(level == 0);
        } else {
            assert(current_dir@ =~= dir@.take(level - 1));
        }
    }
    None
}

/// Whether one of the files exists in the current directory or above it.
pub fn check_files_exist(files: &[&str], current_dir: &TreePath, listing: &Listing) -> (yes: bool)
    ensures
        yes == found_above(current_dir@, names(files@), listing@),
{
    find_up(current_dir, files, listing).is_some()
}

/// The rule's markers are found from the current directory.
pub open spec fn rule_matches(
    rule: RuleView,
    current_dir: Seq<Seq<char>>,
    files: Set<Seq<Seq<char>>>,
) -> bool {
    found_above(current_dir, rule.identifier_files, files)
}

/// Rule number `best` matches, and no matching rule among the first `upto`
/// comes before it: none has a lower priority, and none of the same priority
/// stands earlier in the table.
pub open spec fn wins_among(
    rules: Seq<RuleView>,
    current_dir: Seq<Seq<char>>,
    files: Set<Seq<Seq<char>>>,
    best: int,
    upto: int,
) -> bool {
    &&& 0 <= best < upto <= rules.len()
    &&& rule_matches(rules[best], current_dir, files)
    &&& forall|k: int|
        0 <= k < upto && rule_matches(#[trigger] rules[k], current_dir, files)
            ==> rules[best].priority < rules[k].priority || (rules[best].priority
            == rules[k].priority && best <= k)
}

/// Rule number `best` is the one that the markers select.
pub open spec fn wins(
    rules: Seq<RuleView>,
    current_dir: Seq<Seq<char>>,
    files: Set<Seq<Seq<char>>>,
    best: int,
) -> bool {
    wins_among(rules, current_dir, files, best, rules.len() as int)
}

/// The kind that the markers select: that of the matching rule with the
/// lowest priority, or none if no rule matches.
pub open spec fn selected(
    rules: Seq<RuleView>,
    current_dir: Seq<Seq<char>>,
    files: Set<Seq<Seq<char>>>,
) -> Option<ManagerType> {
    if exists|best: int| wins(rules, current_dir, files, best) {
        Some(rules[choose|best: int| wins(rules, current_dir, files, best)].manager_type)
    } else {
        None
    }
}

/// At most one rule wins.
pub proof fn lemma_winner_unique(
    rules: Seq<RuleView>,
    current_dir: Seq<Seq<char>>,
    files: Set<Seq<Seq<char>>>,
    a: int,
    b: int,
)
    requires
        wins(rules, current_dir, files, a),
        wins(rules, current_dir, files, b),
    ensures
        a == b,
{
}

/// The kind that the rules select for the current directory: among the rules
/// whose markers are found there or above, the one with the lowest priority.
pub fn select(rules: &[DetectionConfig], current_dir: &TreePath, files: &Listing) -> (chosen:
    Option<ManagerType>)
    ensures
        chosen == selected(rule_views(rules@), current_dir@, files@),
        chosen is None <==> forall|k: int|
            0 <= k < rules@.len() ==> !rule_matches(#[trigger] rules@[k]@, current_dir@, files@),
{
    let ghost views = rule_views(rules@);
    let mut best: Option<usize> = None;
    let mut i: usize = 0;
    while i < rules.len()
        invariant
            i <= rules@.len(),
            views == rule_views(rules@),
            best is None ==> forall|k: int|
                0 <= k < i ==> !rule_matches(#[trigger] views[k], current_dir@, files@),
            best matches Some(b) ==> wins_among(views, current_dir@, files@, b as int, i as int),
        decreases rules@.len() - i,
    {
        let rule = &rules[i];
        assert(views[i as int] == rule@);
        if check_files_exist(rule.identifier_files, current_dir, files) {
            match best {
                None => {
                    best = Some(i);
                },
                Some(b) => {
                    assert(views[b as int] == rules@[b as int]@);
                    if rule.priority < rules[b].priority {
                        best = Some(i);
                    }
                },
            }
        }
        i += 1;
    }
    match best {
        Some(b) => {
            proof {
                assert(wins(views, current_dir@, files@, b as int));
                let w = choose|w: int| wins(views, current_dir@, files@, w);
                lemma_winner_unique(views, current_dir@, files@, w, b as int);
                assert(views[b as int] == rules@[b as int]@);
            }
            Some(rules[b].manager_type)
        },
        None => {
            proof {
                assert forall|w: int| !wins(views, current_dir@, files@, w) by {
                    if wins(views, current_dir@, files@, w) {
                        assert(rule_matches(views[w], current_dir@, files@));
                    }
                }
                assert forall|k: int| 0 <= k < rules@.len() implies !rule_matches(
                    #[trigger] rules@[k]@,
                    current_dir@,
                    files@,
                ) by {
                    assert(views[k] == rules@[k]@);
                }
            }
            None
        },
    }
}

/// The lower-case form of a text, as `str::to_lowercase` gives it.
pub uninterp spec fn lowercase(name: Seq<char>) -> Seq<char>;

/// Calls `str::to_lowercase`, which maps every character to its lower-case
/// form by the Unicode tables. The result depends on the text alone; the
/// contract gives it its name and claims nothing else of it.
#[verifier::external_body]
fn to_lowercase(name: &str) -> (lower: String)
    ensures
        lower@ == lowercase(name@),
{
    name.to_lowercase()
}

/// The kind that an identifier stands for, if it is one of the known
/// identifiers. They are all lower case.
pub open spec fn known_manager(identifier: Seq<char>) -> Option<ManagerType> {
    if identifier == "cargo"@ {
        Some(ManagerType::Cargo)
    } else if identifier == "npm"@ {
        Some(ManagerType::Npm)
    } else if identifier == "pnpm"@ {
        Some(ManagerType::Pnpm)
    } else if identifier == "bun"@ {
        Some(ManagerType::Bun)
    } else if identifier == "yarn"@ {
        Some(ManagerType::Yarn)
    } else if identifier == "pip"@ {
        Some(ManagerType::Pip)
    } else if identifier == "poetry"@ {
        Some(ManagerType::Poetry)
    } else if identifier == "pdm"@ {
        Some(ManagerType::Pdm)
    } else {
        None
    }
}

/// The kind that an identifier stands for, letter for letter.
pub fn manager_type_of(identifier: &str) -> (kind: Option<ManagerType>)
    ensures
        kind == known_manager(identifier@),
{
    if str_eq(identifier, "cargo") {
        Some(ManagerType::Cargo)
    } else if str_eq(identifier, "npm") {
        Some(ManagerType::Npm)
    } else if str_eq(identifier, "pnpm") {
        Some(ManagerType::Pnpm)
    } else if str_eq(identifier, "bun") {
        Some(ManagerType::Bun)
    } else if str_eq(identifier, "yarn") {
        Some(ManagerType::Yarn)
    } else if str_eq(identifier, "pip") {
        Some(ManagerType::Pip)
    } else if str_eq(identifier, "poetry") {
        Some(ManagerType::Poetry)
    } else if str_eq(identifier, "pdm") {
        Some(ManagerType::Pdm)
    } else {
        None
    }
}

/// The kind that a name stands for, whatever the case of its letters. A name
/// that stands for none is an unsupported manager.
pub fn parse_manager_type(name: &str) -> (parsed: Result<ManagerType, Error>)
    ensures
        match parsed {
            Ok(kind) => known_manager(lowercase(name@)) == Some(kind),
            Err(e) => known_manager(lowercase(name@)) is None && e@
                == (ErrorView::UnsupportedManager { name: name@ }),
        },
{
    let lower = to_lowercase(name);
    match manager_type_of(lower.as_str()) {
        Some(kind) => Ok(kind),
        None => Err(Error::UnsupportedManager { name: name.to_owned() }),
    }
}

/// The override as a character sequence.
pub open spec fn override_view(manager_override: Option<&str>) -> Option<Seq<char>> {
    match manager_override {
        Some(name) => Some(name@),
        None => None,
    }
}

/// The kind that an override names, if there is an override and its name is
/// known.
pub open spec fn override_kind(manager_override: Option<Seq<char>>) -> Option<ManagerType> {
    match manager_override {
        Some(name) => known_manager(lowercase(name)),
        None => None,
    }
}

/// The kind that detection settles on. A known override wins; else the cache,
/// where it holds a result for the current directory or one above; else the
/// marker files.
pub open spec fn detected_kind(
    rules: Seq<RuleView>,
    manager_override: Option<Seq<char>>,
    cache: Option<(Seq<Seq<char>>, ManagerType)>,
    current_dir: Seq<Seq<char>>,
    files: Set<Seq<Seq<char>>>,
) -> Option<ManagerType> {
    if override_kind(manager_override) is Some {
        override_kind(manager_override)
    } else if cached_for(cache, current_dir) is Some {
        cached_for(cache, current_dir)
    } else {
        selected(rules, current_dir, files)
    }
}

/// The cache after a detection. An override and a kind found by the marker
/// files are cached for the current directory; a result taken from the cache,
/// and a detection that found nothing, leave the cache as it was.
pub open spec fn cache_after(
    rules: Seq<RuleView>,
    manager_override: Option<Seq<char>>,
    cache: Option<(Seq<Seq<char>>, ManagerType)>,
    current_dir: Seq<Seq<char>>,
    files: Set<Seq<Seq<char>>>,
) -> Option<(Seq<Seq<char>>, ManagerType)> {
    if override_kind(manager_override) is Some {
        Some((current_dir, override_kind(manager_override)->Some_0))
    } else if cached_for(cache, current_dir) is Some {
        cache
    } else if selected(rules, current_dir, files) is Some {
        Some((current_dir, selected(rules, current_dir, files)->Some_0))
    } else {
        cache
    }
}

/// What a registry makes of a detected kind: the adapter registered for it,
/// or the report that the kind is unsupported; and where nothing was
/// detected, the report of that.
pub open spec fn is_creation_of<M>(
    detected: Result<M, Error>,
    registry: Map<ManagerType, M>,
    kind: Option<ManagerType>,
) -> bool {
    match kind {
        Some(k) => if registry.contains_key(k) {
            detected == Ok::<M, Error>(registry[k])
        } else {
            detected matches Err(e) && e@ == (ErrorView::UnsupportedManager {
                name: type_label(k),
            })
        },
        None => detected matches Err(e) && e@ == ErrorView::ManagerNotDetected,
    }
}

/// Detection with a given table of rules.
pub fn detect_with<M: PackageManager + Copy>(
    rules: &[DetectionConfig],
    registry: &ManagerRegistry<M>,
    manager_override: Option<&str>,
    cache: &mut DetectionCache,
    current_dir: &TreePath,
    files: &Listing,
) -> (detected: Result<M, Error>)
    ensures
        is_creation_of(
            detected,
            registry@,
            detected_kind(
                rule_views(rules@),
                override_view(manager_override),
                old(cache)@,
                current_dir@,
                files@,
            ),
        ),
        final(cache)@ == cache_after(
            rule_views(rules@),
            override_view(manager_override),
            old(cache)@,
            current_dir@,
            files@,
        ),
{
    if let Some(manager_name) = manager_override {
        if let Ok(manager_type) = parse_manager_type(manager_name) {
            set_cached_manager(cache, current_dir, manager_type);
            return create_manager(registry, &manager_type);
        }
    }
    if let Some(cached_type) = get_cached_manager(cache, current_dir) {
        return create_manager(registry, &cached_type);
    }
    match select(rules, current_dir, files) {
        Some(manager_type) => {
            set_cached_manager(cache, current_dir, manager_type);
            create_manager(registry, &manager_type)
        },
        None => Err(Error::ManagerNotDetected),
    }
}

/// Finds the adapter for the project in the current directory. An override
/// that names a known manager decides; a name that is not known is passed
/// over. Then the cache decides, if it holds a result for this directory or
/// one above. Then the marker files decide, by the built-in rules. Where none
/// of them does, no manager is detected.
pub fn detect<M: PackageManager + Copy>(
    registry: &ManagerRegistry<M>,
    manager_override: Option<&str>,
    cache: &mut DetectionCache,
    current_dir: &TreePath,
    files: &Listing,
) -> (detected: Result<M, Error>)
    ensures
        is_creation_of(
            detected,
            registry@,
            detected_kind(
                builtin_rules(),
                override_view(manager_override),
                old(cache)@,
                current_dir@,
                files@,
            ),
        ),
        final(cache)@ == cache_after(
            builtin_rules(),
            override_view(manager_override),
            old(cache)@,
            current_dir@,
            files@,
        ),
{
    let rules = configurations();
    detect_with(rules.as_slice(), registry, manager_override, cache, current_dir, files)
}

/// One of the rule's markers lies in the directory `dir` itself.
pub open spec fn has_marker_in(
    rule: RuleView,
    dir: Seq<Seq<char>>,
    files: Set<Seq<Seq<char>>>,
) -> bool {
    exists|j: int|
        0 <= j < rule.identifier_files.len() && files.contains(
            dir.push(#[trigger] rule.identifier_files[j]),
        )
}

/// A marker in a directory speaks for its tool in that directory and in
/// every directory below it.
pub proof fn lemma_marker_reaches_down(
    rule: RuleView,
    marked_dir: Seq<Seq<char>>,
    current_dir: Seq<Seq<char>>,
    files: Set<Seq<Seq<char>>>,
)
    requires
        marked_dir.is_prefix_of(current_dir),
        has_marker_in(rule, marked_dir, files),
    ensures
        rule_matches(rule, current_dir, files),
{
    let j = choose|j: int|
        0 <= j < rule.identifier_files.len() && files.contains(
            marked_dir.push(#[trigger] rule.identifier_files[j]),
        );
    let level = marked_dir.len() as int;
    assert(current_dir.take(level) =~= marked_dir);
    assert(found_at(current_dir, rule.identifier_files, files, level, j));
}

/// The lower priority wins. Let a directory hold markers of two rules of a
/// table, whatever the table. Then detection by the markers, from that
/// directory or from any below it, selects the kind of the rule with the
/// lower priority, provided that no other rule that matches there has a
/// priority as low: a marker of a third tool, in the directory or above it,
/// may speak for a tool that comes before both.
pub proof fn lemma_lower_priority_wins(
    rules: Seq<RuleView>,
    files: Set<Seq<Seq<char>>>,
    marked_dir: Seq<Seq<char>>,
    current_dir: Seq<Seq<char>>,
    lower: int,
    higher: int,
)
    requires
        marked_dir.is_prefix_of(current_dir),
        0 <= lower < rules.len(),
        0 <= higher < rules.len(),
        has_marker_in(rules[lower], marked_dir, files),
        has_marker_in(rules[higher], marked_dir, files),
        rules[lower].priority < rules[higher].priority,
        forall|k: int|
            0 <= k < rules.len() && k != lower && rule_matches(
                #[trigger] rules[k],
                current_dir,
                files,
            ) ==> rules[lower].priority < rules[k].priority,
    ensures
        selected(rules, current_dir, files) == Some(rules[lower].manager_type),
{
    lemma_marker_reaches_down(rules[lower], marked_dir, current_dir, files);
    assert(wins(rules, current_dir, files, lower));
    let w = choose|w: int| wins(rules, current_dir, files, w);
    lemma_winner_unique(rules, current_dir, files, w, lower);
}

/// A detection that succeeded is repeated by the next one from the same
/// directory or from any below it, whatever files are found that time: the
/// cache answers, and the files are not looked at. The second call must not
/// carry an override that names another manager, for an override comes
/// before the cache.
pub proof fn lemma_detection_repeats(
    rules: Seq<RuleView>,
    first_override: Option<Seq<char>>,
    cache: Option<(Seq<Seq<char>>, ManagerType)>,
    dir: Seq<Seq<char>>,
    files: Set<Seq<Seq<char>>>,
    kind: ManagerType,
    second_override: Option<Seq<char>>,
    below: Seq<Seq<char>>,
    later_files: Set<Seq<Seq<char>>>,
)
    requires
        detected_kind(rules, first_override, cache, dir, files) == Some(kind),
        dir.is_prefix_of(below),
        override_kind(second_override) is None || override_kind(second_override) == Some(kind),
    ensures
        detected_kind(
            rules,
            second_override,
            cache_after(rules, first_override, cache, dir, files),
            below,
            later_files,
        ) == Some(kind),
{
    let kept = cache_after(rules, first_override, cache, dir, files);
    assert(kept is Some);
    let held = kept->Some_0.0;
    assert(held.is_prefix_of(dir));
    assert(held =~= below.subrange(0, held.len() as int)) by {
        assert(held == dir.subrange(0, held.len() as int));
        assert(dir == below.subrange(0, dir.len() as int));
    }
    assert(cached_for(kept, below) == Some(kind));
}

/// A cached result does not reach outside the tree it was made for: from a
/// directory that is neither the cached one nor below it, detection is what
/// it would be with an empty cache.
pub proof fn lemma_cache_stays_in_its_tree(
    rules: Seq<RuleView>,
    manager_override: Option<Seq<char>>,
    cached_dir: Seq<Seq<char>>,
    cached_kind: ManagerType,
    outside: Seq<Seq<char>>,
    files: Set<Seq<Seq<char>>>,
)
    requires
        !cached_dir.is_prefix_of(outside),
    ensures
        cached_for(Some((cached_dir, cached_kind)), outside) is None,
        detected_kind(rules, manager_override, Some((cached_dir, cached_kind)), outside, files)
            == detected_kind(rules, manager_override, None, outside, files),
{
}

} // verus!
