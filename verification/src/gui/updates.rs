//! The OS-updates panel: "Check for updates" shows what `apt` would
//! upgrade; "Update now" (offered only when something is upgradable) opens
//! a confirmation, and only confirming starts the update, which runs in the
//! background while the panel stays usable.
use vstd::prelude::*;

use crate::text::{
    all_white, is_white, join, join_strings, lemma_blank_text_blank_lines, lemma_join_keeps_part, lemma_join_white,
    lemma_trim_empty_is_white, lines, lines_of, starts_with, starts_with_str, trim, trim_str, views,
};

verus! {

broadcast use vstd::string::group_string_axioms;

/// The progress line `apt list` prints before the packages, even when
/// nothing is upgradable.
pub const LISTING_HEADER: &'static str = "Listing...";

/// The lines of `ls` that `apt` printed about packages: all but its
/// progress lines.
pub open spec fn package_lines(ls: Seq<Seq<char>>) -> Seq<Seq<char>>
    decreases ls.len(),
{
    if ls.len() == 0 {
        seq![]
    } else if starts_with(ls.last(), LISTING_HEADER@) {
        package_lines(ls.drop_last())
    } else {
        package_lines(ls.drop_last()).push(ls.last())
    }
}

/// The listing a preview shows for `output`: its package lines, blank ones
/// included, joined with `'\n'`.
pub open spec fn package_text(output: Seq<char>) -> Seq<char> {
    join(package_lines(lines(output)), seq!['\n'])
}

/// The package lines of white-space lines are white space.
pub proof fn lemma_white_package_lines(ls: Seq<Seq<char>>)
    requires
        forall|i: int| 0 <= i < ls.len() ==> all_white(#[trigger] ls[i]),
    ensures
        forall|i: int|
            0 <= i < package_lines(ls).len() ==> all_white(#[trigger] package_lines(ls)[i]),
    decreases ls.len(),
{
    if ls.len() > 0 {
        assert(all_white(ls[ls.len() - 1]));
        assert forall|i: int| 0 <= i < ls.drop_last().len() implies all_white(
            #[trigger] ls.drop_last()[i],
        ) by {
            assert(ls.drop_last()[i] == ls[i]);
        }
        lemma_white_package_lines(ls.drop_last());
        let rest = package_lines(ls.drop_last());
        if !starts_with(ls.last(), LISTING_HEADER@) {
            assert forall|i: int| 0 <= i < rest.push(ls.last()).len() implies all_white(
                #[trigger] rest.push(ls.last())[i],
            ) by {
                if i < rest.len() {
                    assert(rest.push(ls.last())[i] == rest[i]);
                }
            }
        }
    }
}

/// Blank output lists nothing but white space.
pub proof fn lemma_blank_output_blank_listing(output: Seq<char>)
    requires
        trim(output).len() == 0,
    ensures
        trim(package_text(output)).len() == 0,
{
    lemma_blank_text_blank_lines(output);
    assert forall|i: int| 0 <= i < lines(output).len() implies all_white(
        #[trigger] lines(output)[i],
    ) by {
        lemma_trim_empty_is_white(lines(output)[i]);
    }
    lemma_white_package_lines(lines(output));
    assert forall|i: int| 0 <= i < 1 implies is_white(#[trigger] seq!['\n'][i]) by {}
    lemma_join_white(package_lines(lines(output)), seq!['\n']);
    lemma_trim_empty_is_white(package_text(output));
}

/// The package lines are exactly the lines that are not `apt`'s
/// "Listing..." progress lines: every other line is kept, and only such
/// lines are.
pub proof fn lemma_package_lines_filter(ls: Seq<Seq<char>>)
    ensures
        forall|i: int|
            0 <= i < ls.len() && !starts_with(#[trigger] ls[i], "Listing..."@)
                ==> package_lines(ls).contains(ls[i]),
        forall|j: int|
            0 <= j < package_lines(ls).len() ==> !starts_with(
                #[trigger] package_lines(ls)[j],
                "Listing..."@,
            ) && ls.contains(package_lines(ls)[j]),
    decreases ls.len(),
{
    if ls.len() > 0 {
        let init = ls.drop_last();
        let rest = package_lines(init);
        lemma_package_lines_filter(init);
        assert forall|i: int|
            0 <= i < ls.len() && !starts_with(#[trigger] ls[i], "Listing..."@) implies package_lines(
            ls,
        ).contains(ls[i]) by {
            if i < ls.len() - 1 {
                assert(init[i] == ls[i]);
                assert(rest.contains(init[i]));
                let t = choose|t: int| 0 <= t < rest.len() && rest[t] == init[i];
                if !starts_with(ls.last(), LISTING_HEADER@) {
                    assert(rest.push(ls.last())[t] == rest[t]);
                }
            } else {
                assert(rest.push(ls.last())[rest.len() as int] == ls.last());
            }
        }
        assert forall|j: int| 0 <= j < package_lines(ls).len() implies !starts_with(
            #[trigger] package_lines(ls)[j],
            "Listing..."@,
        ) && ls.contains(package_lines(ls)[j]) by {
            if j < rest.len() {
                if !starts_with(ls.last(), LISTING_HEADER@) {
                    assert(rest.push(ls.last())[j] == rest[j]);
                }
                assert(!starts_with(rest[j], "Listing..."@));
                assert(init.contains(rest[j]));
                let t = choose|t: int| 0 <= t < init.len() && init[t] == rest[j];
                assert(ls[t] == init[t]);
            } else {
                assert(package_lines(ls)[j] == ls.last());
                assert(ls[ls.len() - 1] == ls.last());
            }
        }
    }
}

/// Any line of the output that is neither a progress line nor blank makes
/// the preview show updates as available.
pub proof fn lemma_package_line_means_available(output: Seq<char>, i: int)
    requires
        0 <= i < lines(output).len(),
        !starts_with(lines(output)[i], "Listing..."@),
        !all_white(lines(output)[i]),
    ensures
        trim(package_text(output)).len() > 0,
{
    lemma_package_lines_filter(lines(output));
    let ps = package_lines(lines(output));
    assert(ps.contains(lines(output)[i]));
    let j = choose|j: int| 0 <= j < ps.len() && ps[j] == lines(output)[i];
    lemma_join_keeps_part(ps, seq!['\n'], j);
    lemma_trim_empty_is_white(package_text(output));
}

/// What a preview shows.
#[derive(Debug)]
pub enum PreviewStatus {
    /// Nothing checked yet.
    Idle,
    /// Nothing is upgradable.
    UpToDate,
    /// These packages (one per line) are upgradable.
    Available(String),
    /// Checking failed with this message.
    Error(String),
}

/// The state of an update run.
#[derive(Debug)]
pub enum ApplyStatus {
    Idle,
    Running,
    Success,
    Error(String),
}

/// What the output of `apt list --upgradable` means: without `apt`'s
/// progress lines, up to date when what is left is blank (so always when
/// the output is blank), else the lines left, blank ones included.
pub fn parse_preview(output: &str) -> (r: PreviewStatus)
    ensures
        trim(package_text(output@)).len() == 0 ==> r == PreviewStatus::UpToDate,
        trim(package_text(output@)).len() > 0 ==> (r matches PreviewStatus::Available(s) && s@
            == package_text(output@)),
        trim(output@).len() == 0 ==> r == PreviewStatus::UpToDate,
        (exists|i: int|
            0 <= i < lines(output@).len() && !starts_with(
                #[trigger] lines(output@)[i],
                "Listing..."@,
            ) && !all_white(lines(output@)[i])) ==> r is Available,
{
    let ls = lines_of(output);
    let n = ls.len();
    let mut kept: Vec<String> = Vec::new();
    let mut i: usize = 0;
    assert(views(ls@).take(0) =~= Seq::<Seq<char>>::empty());
    while i < n
        invariant
            i <= n == ls@.len(),
            views(ls@) == lines(output@),
            views(kept@) == package_lines(views(ls@).take(i as int)),
        decreases n - i,
    {
        let ghost before = views(kept@);
        assert(views(ls@).take(i + 1).drop_last() =~= views(ls@).take(i as int));
        assert(views(ls@).take(i + 1).last() == ls@[i as int]@);
        if !starts_with_str(ls[i].as_str(), LISTING_HEADER) {
            kept.push(ls[i].clone());
            assert(views(kept@) =~= before.push(ls@[i as int]@));
        }
        i = i + 1;
    }
    assert(views(ls@).take(n as int) =~= views(ls@));
    proof {
        if trim(output@).len() == 0 {
            lemma_blank_output_blank_listing(output@);
        }
        if exists|i: int|
            0 <= i < lines(output@).len() && !starts_with(
                #[trigger] lines(output@)[i],
                "Listing..."@,
            ) && !all_white(lines(output@)[i]) {
            let i = choose|i: int|
                0 <= i < lines(output@).len() && !starts_with(
                    #[trigger] lines(output@)[i],
                    "Listing..."@,
                ) && !all_white(lines(output@)[i]);
            lemma_package_line_means_available(output@, i);
        }
    }
    let newline = "\n".to_string();
    proof {
        reveal_strlit("\n");
        assert(newline@ =~= seq!['\n']);
    }
    let listing = join_strings(&kept, newline.as_str());
    if trim_str(listing.as_str()).as_str().is_empty() {
        PreviewStatus::UpToDate
    } else {
        PreviewStatus::Available(listing)
    }
}

/// The updates panel's state.
#[derive(Debug)]
pub struct State {
    pub preview: PreviewStatus,
    /// The confirmation dialog is open.
    pub show_confirm: bool,
    pub apply: ApplyStatus,
}

impl State {
    /// While an update runs, nothing offers another one: the preview is
    /// cleared and no confirmation is open.
    pub open spec fn inv(self) -> bool {
        self.apply is Running ==> self.preview is Idle && !self.show_confirm
    }

    /// The panel as it opens.
    pub fn new() -> (r: Self)
        ensures
            r.preview == PreviewStatus::Idle,
            !r.show_confirm,
            r.apply == ApplyStatus::Idle,
            r.inv(),
    {
        State { preview: PreviewStatus::Idle, show_confirm: false, apply: ApplyStatus::Idle }
    }

    /// An update is running (the panel's buttons are disabled).
    pub fn applying(&self) -> (b: bool)
        ensures
            b == (self.apply is Running),
    {
        match self.apply {
            ApplyStatus::Running => true,
            _ => false,
        }
    }

    /// "Update now" is offered: the last check found upgradable packages.
    pub fn offers_update(&self) -> (b: bool)
        ensures
            b == (self.preview is Available),
    {
        match self.preview {
            PreviewStatus::Available(_) => true,
            _ => false,
        }
    }

    /// Records the outcome of "Check for updates" (the daemon's listing, or
    /// the failure's message; a blank listing means up to date). While an update runs the button is disabled
    /// and nothing changes.
    pub fn check_finished(&mut self, result: Result<String, String>)
        ensures
            old(self).apply is Running ==> *final(self) == *old(self),
            !(old(self).apply is Running) ==> {
                &&& final(self).show_confirm == old(self).show_confirm
                &&& final(self).apply == old(self).apply
                &&& match result {
                    Ok(output) => {
                        &&& trim(output@).len() == 0 ==> final(self).preview
                            == PreviewStatus::UpToDate
                        &&& trim(package_text(output@)).len() == 0 ==> final(self).preview
                            == PreviewStatus::UpToDate
                        &&& trim(package_text(output@)).len() > 0 ==> (final(self).preview matches PreviewStatus::Available(s)
                            && s@ == package_text(output@))
                    },
                    Err(message) => final(self).preview == PreviewStatus::Error(message),
                }
            },
            old(self).inv() ==> final(self).inv(),
    {
        if self.applying() {
            return ;
        }
        self.preview = match result {
            Ok(output) => parse_preview(output.as_str()),
            Err(message) => PreviewStatus::Error(message),
        };
    }

    /// "Update now" was clicked: open the confirmation, where an update is
    /// offered and none is running; nothing is applied yet.
    pub fn request_update(&mut self)
        ensures
            final(self).show_confirm == (old(self).show_confirm || (old(self).preview is Available
                && !(old(self).apply is Running))),
            final(self).preview == old(self).preview,
            final(self).apply == old(self).apply,
            old(self).inv() ==> final(self).inv(),
    {
        if self.offers_update() && !self.applying() {
            self.show_confirm = true;
        }
    }

    /// "Cancel" in the confirmation.
    pub fn cancel_update(&mut self)
        ensures
            !final(self).show_confirm,
            final(self).preview == old(self).preview,
            final(self).apply == old(self).apply,
            old(self).inv() ==> final(self).inv(),
    {
        self.show_confirm = false;
    }

    /// "Yes, update" in the confirmation: when the confirmation is open,
    /// close it, clear the preview (hiding "Update now" for the whole run)
    /// and mark the update running; the caller then starts it. Returns
    /// whether it is to be started.
    pub fn confirm_update(&mut self) -> (start: bool)
        ensures
            start == old(self).show_confirm,
            start ==> final(self).preview == PreviewStatus::Idle && !final(self).show_confirm
                && final(self).apply == ApplyStatus::Running,
            !start ==> *final(self) == *old(self),
            old(self).inv() ==> final(self).inv(),
    {
        if self.show_confirm {
            self.show_confirm = false;
            self.preview = PreviewStatus::Idle;
            self.apply = ApplyStatus::Running;
            true
        } else {
            false
        }
    }

    /// The update run ended with `result` (the failure's message on error).
    pub fn apply_finished(&mut self, result: Result<(), String>)
        ensures
            match result {
                Ok(_) => final(self).apply == ApplyStatus::Success,
                Err(message) => final(self).apply == ApplyStatus::Error(message),
            },
            final(self).preview == old(self).preview,
            final(self).show_confirm == old(self).show_confirm,
            old(self).inv() ==> final(self).inv(),
    {
        self.apply = match result {
            Ok(()) => ApplyStatus::Success,
            Err(message) => ApplyStatus::Error(message),
        };
    }
}

} // verus!
