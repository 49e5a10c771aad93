//! Choice of the window to photograph among those the screenshot provider
//! lists: five rules tried in order, the first window in list order that
//! satisfies the first rule with any match wins.

use vstd::prelude::*;
use crate::models::WindowDescriptor;
use crate::text::{contains, has_infix, str_eq};

verus! {

/// The rules, in the order in which they are tried.
#[derive(Debug, Clone, Copy, PartialEq, Eq, Structural)]
pub enum SelectionRule {
    /// The application name is one of the identifiers and the title is the
    /// preferred one (any title when none is preferred).
    AppAndTitle,
    /// The application name is one of the identifiers.
    App,
    /// The window name contains one of the identifiers.
    NameContains,
    /// The application name is not on the denylist.
    NotDenied,
    /// Any window.
    Any,
}

/// No window could be selected: the candidate list was empty.
#[derive(Debug, Clone, Copy, PartialEq, Eq, Structural)]
pub struct NotFound;

/// `text` is one of `list`.
pub open spec fn listed(list: Seq<Seq<char>>, text: Seq<char>) -> bool {
    exists|k: int| 0 <= k < list.len() && list[k] == text
}

/// `text` contains one of `list` as a contiguous run of characters.
pub open spec fn mentions_one(list: Seq<Seq<char>>, text: Seq<char>) -> bool {
    exists|k: int| 0 <= k < list.len() && has_infix(text, #[trigger] list[k])
}

/// What a selection is made with: the identifiers of the application, the
/// title to prefer and the denylist of system windows.
pub struct Criteria {
    pub identifiers: Seq<Seq<char>>,
    pub preferred_title: Option<Seq<char>>,
    pub denylist: Seq<Seq<char>>,
}

/// Whether window `w` satisfies `rule` under `by`.
pub open spec fn satisfies(rule: SelectionRule, w: WindowDescriptor, by: Criteria) -> bool {
    match rule {
        SelectionRule::AppAndTitle => listed(by.identifiers, w.app_name@) && (
        by.preferred_title matches Some(title) ==> w.title@ == title),
        SelectionRule::App => listed(by.identifiers, w.app_name@),
        SelectionRule::NameContains => mentions_one(by.identifiers, w.name@),
        SelectionRule::NotDenied => !listed(by.denylist, w.app_name@),
        SelectionRule::Any => true,
    }
}

/// Index of the first candidate at or after `from` that satisfies `rule`.
pub open spec fn first_match(
    candidates: Seq<WindowDescriptor>,
    rule: SelectionRule,
    by: Criteria,
    from: int,
) -> Option<int>
    decreases candidates.len() - from,
{
    if from < 0 || from >= candidates.len() {
        None
    } else if satisfies(rule, candidates[from], by) {
        Some(from)
    } else {
        first_match(candidates, rule, by, from + 1)
    }
}

/// Index of the window that the five rules select: the first match of the
/// first rule that matches any candidate. `None` exactly for an empty list.
pub open spec fn selection(candidates: Seq<WindowDescriptor>, by: Criteria) -> Option<int> {
    if first_match(candidates, SelectionRule::AppAndTitle, by, 0) is Some {
        first_match(candidates, SelectionRule::AppAndTitle, by, 0)
    } else if first_match(candidates, SelectionRule::App, by, 0) is Some {
        first_match(candidates, SelectionRule::App, by, 0)
    } else if first_match(candidates, SelectionRule::NameContains, by, 0) is Some {
        first_match(candidates, SelectionRule::NameContains, by, 0)
    } else if first_match(candidates, SelectionRule::NotDenied, by, 0) is Some {
        first_match(candidates, SelectionRule::NotDenied, by, 0)
    } else {
        first_match(candidates, SelectionRule::Any, by, 0)
    }
}

/// Index of the first candidate at or after `from` whose id is `id`.
pub open spec fn first_with_id(candidates: Seq<WindowDescriptor>, id: u32, from: int) -> Option<
    int,
>
    decreases candidates.len() - from,
{
    if from < 0 || from >= candidates.len() {
        None
    } else if candidates[from].id == id {
        Some(from)
    } else {
        first_with_id(candidates, id, from + 1)
    }
}

/// The selection under an optional explicit target: a target id that is
/// among the candidates wins over every rule; otherwise the rules decide.
pub open spec fn selection_with_target(
    candidates: Seq<WindowDescriptor>,
    by: Criteria,
    target: Option<u32>,
) -> Option<int> {
    if target is Some && first_with_id(candidates, target->0, 0) is Some {
        first_with_id(candidates, target->0, 0)
    } else {
        selection(candidates, by)
    }
}

/// `first_match` finds the least index at or after `from` whose window
/// satisfies the rule, and finds none only when no such window exists.
pub proof fn lemma_first_match(
    candidates: Seq<WindowDescriptor>,
    rule: SelectionRule,
    by: Criteria,
    from: int,
)
    requires
        0 <= from <= candidates.len(),
    ensures
        match first_match(candidates, rule, by, from) {
            Some(i) => from <= i < candidates.len() && satisfies(rule, candidates[i], by)
                && forall|j: int| from <= j < i ==> !satisfies(rule, candidates[j], by),
            None => forall|j: int|
                from <= j < candidates.len() ==> !satisfies(rule, candidates[j], by),
        },
    decreases candidates.len() - from,
{
    if from < candidates.len() && !satisfies(rule, candidates[from], by) {
        lemma_first_match(candidates, rule, by, from + 1);
    }
}

/// The rules fail to select only on an empty list, and what they select
/// is an index into the list.
pub proof fn law_selection_total(candidates: Seq<WindowDescriptor>, by: Criteria)
    ensures
        selection(candidates, by) is None <==> candidates.len() == 0,
        selection(candidates, by) matches Some(i) ==> 0 <= i < candidates.len(),
{
    lemma_first_match(candidates, SelectionRule::AppAndTitle, by, 0);
    lemma_first_match(candidates, SelectionRule::App, by, 0);
    lemma_first_match(candidates, SelectionRule::NameContains, by, 0);
    lemma_first_match(candidates, SelectionRule::NotDenied, by, 0);
    lemma_first_match(candidates, SelectionRule::Any, by, 0);
}

/// An explicit target that is among the candidates is always the one
/// selected, whatever the rules would have chosen.
pub proof fn law_target_wins(
    candidates: Seq<WindowDescriptor>,
    by: Criteria,
    id: u32,
    at: int,
)
    requires
        0 <= at < candidates.len(),
        candidates[at].id == id,
    ensures
        selection_with_target(candidates, by, Some(id)) matches Some(i) && 0 <= i <= at
            && candidates[i].id == id,
{
    lemma_first_with_id(candidates, id, 0);
}

/// `first_with_id` finds the least index at or after `from` that holds
/// the id, and finds none only when no candidate holds it.
pub proof fn lemma_first_with_id(candidates: Seq<WindowDescriptor>, id: u32, from: int)
    requires
        0 <= from <= candidates.len(),
    ensures
        match first_with_id(candidates, id, from) {
            Some(i) => from <= i < candidates.len() && candidates[i].id == id && forall|j: int|
                from <= j < i ==> candidates[j].id != id,
            None => forall|j: int| from <= j < candidates.len() ==> candidates[j].id != id,
        },
    decreases candidates.len() - from,
{
    if from < candidates.len() && candidates[from].id != id {
        lemma_first_with_id(candidates, id, from + 1);
    }
}

/// Whether `text` is one of `list`.
pub fn is_listed(list: &Vec<String>, text: &str) -> (r: bool)
    ensures
        r == listed(list.deep_view(), text@),
{
    let mut k: usize = 0;
    while k < list.len()
        invariant
            k <= list.len(),
            forall|j: int| 0 <= j < k ==> list.deep_view()[j] != text@,
        decreases list.len() - k,
    {
        if str_eq(list[k].as_str(), text) {
            assert(list.deep_view()[k as int] == text@);
            return true;
        }
        k += 1;
    }
    false
}

/// Whether `text` contains one of `list`.
pub fn mentions_listed(list: &Vec<String>, text: &str) -> (r: bool)
    ensures
        r == mentions_one(list.deep_view(), text@),
{
    let mut k: usize = 0;
    while k < list.len()
        invariant
            k <= list.len(),
            forall|j: int| 0 <= j < k ==> !has_infix(text@, #[trigger] list.deep_view()[j]),
        decreases list.len() - k,
    {
        if contains(text, list[k].as_str()) {
            assert(has_infix(text@, list.deep_view()[k as int]));
            return true;
        }
        k += 1;
    }
    false
}

/// The owners of windows that belong to the operating system and not to
/// any application, in the languages that are known: the denylist of a
/// selector unless another one is given.
pub fn system_window_owners() -> (r: Vec<String>)
    ensures
        r.deep_view() == seq![
            "Window Server"@,
            "Dock"@,
            "Control Center"@,
            "Notification Center"@,
            "SystemUIServer"@,
            "\u{30b3}\u{30f3}\u{30c8}\u{30ed}\u{30fc}\u{30eb}\u{30bb}\u{30f3}\u{30bf}\u{30fc}"@,
            "\u{901a}\u{77e5}\u{30bb}\u{30f3}\u{30bf}\u{30fc}"@,
        ],
{
    let mut out: Vec<String> = Vec::new();
    out.push(String::from_str("Window Server"));
    out.push(String::from_str("Dock"));
    out.push(String::from_str("Control Center"));
    out.push(String::from_str("Notification Center"));
    out.push(String::from_str("SystemUIServer"));
    out.push(
        String::from_str(
            "\u{30b3}\u{30f3}\u{30c8}\u{30ed}\u{30fc}\u{30eb}\u{30bb}\u{30f3}\u{30bf}\u{30fc}",
        ),
    );
    out.push(String::from_str("\u{901a}\u{77e5}\u{30bb}\u{30f3}\u{30bf}\u{30fc}"));
    assert(out.deep_view() =~= seq![
        "Window Server"@,
        "Dock"@,
        "Control Center"@,
        "Notification Center"@,
        "SystemUIServer"@,
        "\u{30b3}\u{30f3}\u{30c8}\u{30ed}\u{30fc}\u{30eb}\u{30bb}\u{30f3}\u{30bf}\u{30fc}"@,
        "\u{901a}\u{77e5}\u{30bb}\u{30f3}\u{30bf}\u{30fc}"@,
    ]);
    out
}

/// The view of an optional title.
pub open spec fn title_view(title: Option<&str>) -> Option<Seq<char>> {
    match title {
        Some(t) => Some(t@),
        None => None,
    }
}

/// Window selector, made with the denylist of system window owners that
/// the fourth rule passes over.
#[derive(Debug)]
pub struct WindowSelector {
    pub denylist: Vec<String>,
}

impl WindowSelector {
    /// A selector with the given denylist.
    pub fn new(denylist: Vec<String>) -> (r: Self)
        ensures
            r.denylist == denylist,
    {
        WindowSelector { denylist }
    }

    /// A selector with the denylist of known system window owners.
    pub fn with_system_denylist() -> (r: Self)
        ensures
            r.denylist.deep_view() == seq![
                "Window Server"@,
                "Dock"@,
                "Control Center"@,
                "Notification Center"@,
                "SystemUIServer"@,
                "\u{30b3}\u{30f3}\u{30c8}\u{30ed}\u{30fc}\u{30eb}\u{30bb}\u{30f3}\u{30bf}\u{30fc}"@,
                "\u{901a}\u{77e5}\u{30bb}\u{30f3}\u{30bf}\u{30fc}"@,
            ],
    {
        WindowSelector { denylist: system_window_owners() }
    }

    /// The criteria of a selection made by this selector.
    pub open spec fn criteria(self, identifiers: Seq<Seq<char>>, preferred: Option<Seq<char>>)
        -> Criteria {
        Criteria { identifiers, preferred_title: preferred, denylist: self.denylist.deep_view() }
    }

    /// Whether `window` satisfies `rule`.
    pub fn window_satisfies(
        &self,
        rule: SelectionRule,
        window: &WindowDescriptor,
        app_identifiers: &Vec<String>,
        preferred_title: Option<&str>,
    ) -> (r: bool)
        ensures
            r == satisfies(
                rule,
                *window,
                self.criteria(app_identifiers.deep_view(), title_view(preferred_title)),
            ),
    {
        match rule {
            SelectionRule::AppAndTitle => {
                if !is_listed(app_identifiers, window.app_name.as_str()) {
                    false
                } else {
                    match preferred_title {
                        Some(title) => str_eq(window.title.as_str(), title),
                        None => true,
                    }
                }
            },
            SelectionRule::App => is_listed(app_identifiers, window.app_name.as_str()),
            SelectionRule::NameContains => mentions_listed(app_identifiers, window.name.as_str()),
            SelectionRule::NotDenied => !is_listed(&self.denylist, window.app_name.as_str()),
            SelectionRule::Any => true,
        }
    }

    /// Index of the first candidate that satisfies `rule`.
    pub fn find_first(
        &self,
        rule: SelectionRule,
        candidates: &Vec<WindowDescriptor>,
        app_identifiers: &Vec<String>,
        preferred_title: Option<&str>,
    ) -> (r: Option<usize>)
        ensures
            match r {
                Some(i) => first_match(
                    candidates@,
                    rule,
                    self.criteria(app_identifiers.deep_view(), title_view(preferred_title)),
                    0,
                ) == Some(i as int) && i < candidates.len(),
                None => first_match(
                    candidates@,
                    rule,
                    self.criteria(app_identifiers.deep_view(), title_view(preferred_title)),
                    0,
                ) is None,
            },
    {
        let ghost by = self.criteria(app_identifiers.deep_view(), title_view(preferred_title));
        let mut i: usize = 0;
        while i < candidates.len()
            invariant
                i <= candidates.len(),
                by == self.criteria(app_identifiers.deep_view(), title_view(preferred_title)),
                first_match(candidates@, rule, by, 0) == first_match(candidates@, rule, by, i as int),
            decreases candidates.len() - i,
        {
            if self.window_satisfies(rule, &candidates[i], app_identifiers, preferred_title) {
                return Some(i);
            }
            i += 1;
        }
        None
    }

    /// Index of the window that the rules select among `candidates`.
    pub fn select_index(
        &self,
        candidates: &Vec<WindowDescriptor>,
        app_identifiers: &Vec<String>,
        preferred_title: Option<&str>,
    ) -> (r: Option<usize>)
        ensures
            match r {
                Some(i) => selection(
                    candidates@,
                    self.criteria(app_identifiers.deep_view(), title_view(preferred_title)),
                ) == Some(i as int) && i < candidates.len(),
                None => selection(
                    candidates@,
                    self.criteria(app_identifiers.deep_view(), title_view(preferred_title)),
                ) is None && candidates.len() == 0,
            },
    {
        proof {
            law_selection_total(
                candidates@,
                self.criteria(app_identifiers.deep_view(), title_view(preferred_title)),
            );
        }
        let first = self.find_first(
            SelectionRule::AppAndTitle,
            candidates,
            app_identifiers,
            preferred_title,
        );
        if first.is_some() {
            return first;
        }
        let second = self.find_first(SelectionRule::App, candidates, app_identifiers, preferred_title);
        if second.is_some() {
            return second;
        }
        let third = self.find_first(
            SelectionRule::NameContains,
            candidates,
            app_identifiers,
            preferred_title,
        );
        if third.is_some() {
            return third;
        }
        let fourth = self.find_first(
            SelectionRule::NotDenied,
            candidates,
            app_identifiers,
            preferred_title,
        );
        if fourth.is_some() {
            return fourth;
        }
        self.find_first(SelectionRule::Any, candidates, app_identifiers, preferred_title)
    }

    /// The window that the rules select among `candidates`; `NotFound`
    /// exactly when there are no candidates.
    pub fn select(
        &self,
        candidates: &Vec<WindowDescriptor>,
        app_identifiers: &Vec<String>,
        preferred_title: Option<&str>,
    ) -> (r: Result<WindowDescriptor, NotFound>)
        ensures
            r is Err <==> candidates.len() == 0,
            match r {
                Ok(w) => selection(
                    candidates@,
                    self.criteria(app_identifiers.deep_view(), title_view(preferred_title)),
                ) matches Some(i) && 0 <= i < candidates.len() && w == candidates@[i],
                Err(_) => selection(
                    candidates@,
                    self.criteria(app_identifiers.deep_view(), title_view(preferred_title)),
                ) is None,
            },
    {
        match self.select_index(candidates, app_identifiers, preferred_title) {
            Some(i) => Ok(candidates[i].clone()),
            None => Err(NotFound),
        }
    }

    /// Index of the first candidate with the given id.
    pub fn find_by_id(candidates: &Vec<WindowDescriptor>, id: u32) -> (r: Option<usize>)
        ensures
            match r {
                Some(i) => first_with_id(candidates@, id, 0) == Some(i as int) && i
                    < candidates.len(),
                None => first_with_id(candidates@, id, 0) is None,
            },
    {
        let mut i: usize = 0;
        while i < candidates.len()
            invariant
                i <= candidates.len(),
                first_with_id(candidates@, id, 0) == first_with_id(candidates@, id, i as int),
            decreases candidates.len() - i,
        {
            if candidates[i].id == id {
                return Some(i);
            }
            i += 1;
        }
        None
    }

    /// The window to photograph when the caller may have named one: a
    /// target id that is among the candidates is taken without looking at
    /// any rule; without a target, or with one that is not listed, the
    /// rules select. `NotFound` exactly when there are no candidates.
    pub fn select_with_target(
        &self,
        candidates: &Vec<WindowDescriptor>,
        app_identifiers: &Vec<String>,
        preferred_title: Option<&str>,
        target: Option<u32>,
    ) -> (r: Result<WindowDescriptor, NotFound>)
        ensures
            r is Err <==> candidates.len() == 0,
            match r {
                Ok(w) => selection_with_target(
                    candidates@,
                    self.criteria(app_identifiers.deep_view(), title_view(preferred_title)),
                    target,
                ) matches Some(i) && 0 <= i < candidates.len() && w == candidates@[i],
                Err(_) => selection_with_target(
                    candidates@,
                    self.criteria(app_identifiers.deep_view(), title_view(preferred_title)),
                    target,
                ) is None,
            },
    {
        match target {
            Some(id) => {
                match Self::find_by_id(candidates, id) {
                    Some(i) => {
                        return Ok(candidates[i].clone());
                    },
                    None => {},
                }
            },
            None => {},
        }
        self.select(candidates, app_identifiers, preferred_title)
    }
}

} // verus!
