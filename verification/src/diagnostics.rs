//! How compile errors and warnings are reported: the name shown for a file,
//! and the notes made of hints.
use vstd::prelude::*;

use crate::file_loader::VirtualRootKind;

verus! {

/// A hint attached to an error or a warning.
pub struct Hint {
    pub message: String,
    /// The hint points at no place in a file.
    pub detached: bool,
}

/// The name shown for a file in a report.
pub open spec fn file_name_shown(
    root: VirtualRootKind,
    is_main_text: bool,
    realized: Option<Seq<char>>,
    package: Seq<char>,
    vpath_without_slash: Seq<char>,
    vpath_with_slash: Seq<char>,
) -> Seq<char> {
    match root {
        VirtualRootKind::Project => if is_main_text {
            "<text>"@
        } else {
            match realized {
                Some(p) => p,
                None => vpath_without_slash,
            }
        },
        VirtualRootKind::Package => package + vpath_with_slash,
    }
}

/// The notes made of `hints`: one `hint: ...` line per hint that points at
/// no place, in order.
pub open spec fn hint_notes_of(hints: Seq<Hint>) -> Seq<Seq<char>>
    decreases hints.len(),
{
    if hints.len() == 0 {
        Seq::empty()
    } else {
        let rest = hint_notes_of(hints.drop_last());
        if hints.last().detached {
            rest.push("hint: "@ + hints.last().message@)
        } else {
            rest
        }
    }
}

/// The name shown for a file in a report: `<text>` for the text of a text
/// object; for another file of the project, its path on disk (`realized`,
/// where the project directory is known and the path could be made) or else
/// its path within the project; for a file of a package, the package
/// followed by the file's path within it.
pub fn diagnostic_file_name(
    root: VirtualRootKind,
    is_main_text: bool,
    realized: Option<String>,
    package: &str,
    vpath_without_slash: &str,
    vpath_with_slash: &str,
) -> (name: String)
    ensures
        name@ == file_name_shown(
            root,
            is_main_text,
            match realized {
                Some(p) => Some(p@),
                None => None,
            },
            package@,
            vpath_without_slash@,
            vpath_with_slash@,
        ),
        root == VirtualRootKind::Project && is_main_text ==> name@ == "<text>"@,
        root == VirtualRootKind::Project && !is_main_text ==> match realized {
            Some(p) => name@ == p@,
            None => name@ == vpath_without_slash@,
        },
        root == VirtualRootKind::Package ==> name@ == package@ + vpath_with_slash@,
{
    match root {
        VirtualRootKind::Project => {
            if is_main_text {
                String::from_str("<text>")
            } else {
                match realized {
                    Some(p) => p,
                    None => String::from_str(vpath_without_slash),
                }
            }
        },
        VirtualRootKind::Package => {
            let mut name = String::from_str(package);
            name.append(vpath_with_slash);
            name
        },
    }
}

/// The notes of a report: `hint: ` and the message, for each hint that
/// points at no place, in order.
pub fn hint_notes(hints: &Vec<Hint>) -> (notes: Vec<String>)
    ensures
        notes@.map_values(|s: String| s@) == hint_notes_of(hints@),
        notes@.map_values(|s: String| s@) == hints@.filter(|h: Hint| h.detached).map_values(
            |h: Hint| "hint: "@ + h.message@,
        ),
{
    proof {
        lemma_notes_are_detached_hints(hints@);
    }
    let mut notes: Vec<String> = Vec::new();
    let n = hints.len();
    for i in 0..n
        invariant
            n == hints@.len(),
            notes@.map_values(|s: String| s@) == hint_notes_of(hints@.take(i as int)),
    {
        let ghost before = notes@;
        let hint = &hints[i];
        if hint.detached {
            let mut note = String::from_str("hint: ");
            note.append(hint.message.as_str());
            notes.push(note);
            assert(notes@.map_values(|s: String| s@) =~= before.map_values(|s: String| s@).push(
                note@,
            ));
        }
        assert(hints@.take(i + 1).drop_last() =~= hints@.take(i as int));
    }
    assert(hints@.take(n as int) =~= hints@);
    notes
}

/// Which list of a compilation's reports a report comes from.
#[derive(Clone, Copy, Debug, PartialEq, Eq)]
pub enum ReportList {
    Errors,
    Warnings,
}

/// One report to write: of which list, and where in it.
#[derive(Clone, Copy, Debug, PartialEq, Eq)]
pub struct ReportRef {
    pub list: ReportList,
    pub index: usize,
}

/// The order in which the reports of a compilation are written: every
/// warning, in order, then every error, in order.
pub fn report_order(warnings: usize, errors: usize) -> (order: Vec<ReportRef>)
    requires
        warnings + errors <= usize::MAX,
    ensures
        order@.len() == warnings + errors,
        forall|i: int|
            0 <= i < warnings ==> #[trigger] order@[i] == (ReportRef {
                list: ReportList::Warnings,
                index: i as usize,
            }),
        forall|i: int|
            warnings <= i < warnings + errors ==> #[trigger] order@[i] == (ReportRef {
                list: ReportList::Errors,
                index: (i - warnings) as usize,
            }),
{
    let mut order: Vec<ReportRef> = Vec::new();
    for i in 0..warnings
        invariant
            order@.len() == i,
            forall|j: int|
                0 <= j < i ==> #[trigger] order@[j] == (ReportRef {
                    list: ReportList::Warnings,
                    index: j as usize,
                }),
    {
        order.push(ReportRef { list: ReportList::Warnings, index: i });
    }
    for i in 0..errors
        invariant
            order@.len() == warnings + i,
            warnings + errors <= usize::MAX,
            forall|j: int|
                0 <= j < warnings ==> #[trigger] order@[j] == (ReportRef {
                    list: ReportList::Warnings,
                    index: j as usize,
                }),
            forall|j: int|
                warnings <= j < warnings + i ==> #[trigger] order@[j] == (ReportRef {
                    list: ReportList::Errors,
                    index: (j - warnings) as usize,
                }),
    {
        order.push(ReportRef { list: ReportList::Errors, index: i });
    }
    order
}

/// The positions of the hints that get a label: those for which a place in
/// a file was found, in order.
pub open spec fn labelled_hint_indices(located: Seq<bool>) -> Seq<usize>
    decreases located.len(),
{
    if located.len() == 0 {
        Seq::empty()
    } else {
        let rest = labelled_hint_indices(located.drop_last());
        if located.last() {
            rest.push((located.len() - 1) as usize)
        } else {
            rest
        }
    }
}

/// Which hints of a report get a label beside the report's own: the
/// positions of those for which a place in a file was found (`located`),
/// in order.
pub fn labelled_hints(located: &Vec<bool>) -> (r: Vec<usize>)
    ensures
        r@ == labelled_hint_indices(located@),
        forall|i: int| 0 <= i < r@.len() ==> r@[i] < located@.len() && located@[r@[i] as int],
        forall|j: int| 0 <= j < located@.len() && located@[j] ==> r@.contains(j as usize),
        forall|i: int, k: int| 0 <= i < k < r@.len() ==> r@[i] < r@[k],
{
    let mut r: Vec<usize> = Vec::new();
    let n = located.len();
    proof {
        lemma_labelled_hints(located@);
    }
    for i in 0..n
        invariant
            n == located@.len(),
            r@ == labelled_hint_indices(located@.take(i as int)),
    {
        assert(located@.take(i + 1).drop_last() =~= located@.take(i as int));
        if located[i] {
            r.push(i);
        }
    }
    assert(located@.take(n as int) =~= located@);
    r
}

/// The notes of a report are, in order, `hint: ` and the message of each
/// hint that points at no place, and of no other hint.
pub proof fn lemma_notes_are_detached_hints(hints: Seq<Hint>)
    ensures
        hint_notes_of(hints) == hints.filter(|h: Hint| h.detached).map_values(
            |h: Hint| "hint: "@ + h.message@,
        ),
    decreases hints.len(),
{
    reveal(Seq::filter);
    if hints.len() > 0 {
        lemma_notes_are_detached_hints(hints.drop_last());
        let rest = hints.drop_last().filter(|h: Hint| h.detached);
        assert(hints.filter(|h: Hint| h.detached) == if hints.last().detached {
            rest.push(hints.last())
        } else {
            rest
        });
        if hints.last().detached {
            assert(rest.push(hints.last()).map_values(|h: Hint| "hint: "@ + h.message@)
                =~= rest.map_values(|h: Hint| "hint: "@ + h.message@).push(
                "hint: "@ + hints.last().message@,
            ));
        }
    } else {
        assert(hints.filter(|h: Hint| h.detached).map_values(|h: Hint| "hint: "@ + h.message@)
            =~= Seq::<Seq<char>>::empty());
    }
}

/// Every note is `hint: ` and the message of a hint that points at no
/// place, and every such hint gives a note: a hint that points at a place
/// never gives one.
pub proof fn lemma_notes_match_detached_hints(hints: Seq<Hint>)
    ensures
        forall|i: int|
            0 <= i < hint_notes_of(hints).len() ==> exists|j: int|
                0 <= j < hints.len() && (#[trigger] hints[j]).detached && (#[trigger] hint_notes_of(
                    hints,
                )[i]) == "hint: "@ + hints[j].message@,
        forall|j: int|
            0 <= j < hints.len() && (#[trigger] hints[j]).detached ==> hint_notes_of(
                hints,
            ).contains("hint: "@ + hints[j].message@),
    decreases hints.len(),
{
    if hints.len() > 0 {
        let init = hints.drop_last();
        lemma_notes_match_detached_hints(init);
        let notes = hint_notes_of(hints);
        let rest = hint_notes_of(init);
        assert forall|i: int| 0 <= i < notes.len() implies exists|j: int|
            0 <= j < hints.len() && (#[trigger] hints[j]).detached && (#[trigger] notes[i])
                == "hint: "@ + hints[j].message@ by {
            if i < rest.len() {
                assert(notes[i] == rest[i]);
                let j = choose|j: int|
                    0 <= j < init.len() && (#[trigger] init[j]).detached && rest[i] == "hint: "@
                        + init[j].message@;
                assert(hints[j] == init[j]);
            } else {
                assert(hints[hints.len() - 1] == hints.last());
            }
        }
        assert forall|j: int| 0 <= j < hints.len() && (#[trigger] hints[j]).detached implies notes.contains(
            "hint: "@ + hints[j].message@,
        ) by {
            if j < init.len() {
                assert(init[j] == hints[j]);
                let i = choose|i: int| 0 <= i < rest.len() && rest[i] == "hint: "@ + init[j].message@;
                assert(notes[i] == rest[i]);
            } else {
                assert(notes[notes.len() - 1] == "hint: "@ + hints[j].message@);
            }
        }
    }
}

/// The name shown for a file of the project other than the text object's
/// own text is its path on disk wherever that could be made, whatever that
/// path looks like, and its path within the project otherwise; the text
/// object's own text is `<text>`; a file of a package is named by the
/// package followed by its path within it.
pub proof fn lemma_file_name_shown(
    is_main_text: bool,
    realized: Option<Seq<char>>,
    package: Seq<char>,
    vpath_without_slash: Seq<char>,
    vpath_with_slash: Seq<char>,
)
    ensures
        file_name_shown(
            VirtualRootKind::Project,
            true,
            realized,
            package,
            vpath_without_slash,
            vpath_with_slash,
        ) == "<text>"@,
        realized matches Some(p) ==> file_name_shown(
            VirtualRootKind::Project,
            false,
            realized,
            package,
            vpath_without_slash,
            vpath_with_slash,
        ) == p,
        realized is None ==> file_name_shown(
            VirtualRootKind::Project,
            false,
            realized,
            package,
            vpath_without_slash,
            vpath_with_slash,
        ) == vpath_without_slash,
        file_name_shown(
            VirtualRootKind::Package,
            is_main_text,
            realized,
            package,
            vpath_without_slash,
            vpath_with_slash,
        ) == package + vpath_with_slash,
{
}

/// The hints that get a label are those, and only those, for which a
/// place was found, each once, in their order.
pub proof fn lemma_labelled_hints(located: Seq<bool>)
    requires
        located.len() <= usize::MAX,
    ensures
        forall|i: int|
            0 <= i < labelled_hint_indices(located).len() ==> (#[trigger] labelled_hint_indices(
                located,
            )[i]) < located.len() && located[labelled_hint_indices(located)[i] as int],
        forall|j: int|
            0 <= j < located.len() && #[trigger] located[j] ==> labelled_hint_indices(
                located,
            ).contains(j as usize),
        forall|i: int, k: int|
            0 <= i < k < labelled_hint_indices(located).len() ==> (#[trigger] labelled_hint_indices(
                located,
            )[i]) < (#[trigger] labelled_hint_indices(located)[k]),
    decreases located.len(),
{
    if located.len() > 0 {
        let init = located.drop_last();
        lemma_labelled_hints(init);
        let r = labelled_hint_indices(located);
        let rest = labelled_hint_indices(init);
        let last = (located.len() - 1) as usize;
        assert(last as int == located.len() - 1);
        if located.last() {
            assert(r == rest.push(last));
        } else {
            assert(r == rest);
        }
        assert forall|i: int| 0 <= i < r.len() implies (#[trigger] r[i]) < located.len()
            && located[r[i] as int] by {
            if i < rest.len() {
                assert(r[i] == rest[i]);
                assert(init[rest[i] as int] == located[rest[i] as int]);
            } else {
                assert(r[i] == last);
                assert(located[last as int] == located.last());
            }
        }
        assert forall|j: int| 0 <= j < located.len() && #[trigger] located[j] implies r.contains(
            j as usize,
        ) by {
            if j < init.len() {
                assert(init[j] == located[j]);
                assert(rest.contains(j as usize));
                let i = choose|i: int| 0 <= i < rest.len() && rest[i] == j as usize;
                assert(r[i] == rest[i]);
            } else {
                assert(located[j] == located.last());
                assert(r[r.len() - 1] == j as usize);
            }
        }
        assert forall|i: int, k: int| 0 <= i < k < r.len() implies (#[trigger] r[i]) < (
        #[trigger] r[k]) by {
            assert(r[i] == rest[i]);
            if k < rest.len() {
                assert(r[k] == rest[k]);
            } else {
                assert(r[k] == last);
                assert(rest[i] < init.len());
            }
        }
    }
}

} // verus!
