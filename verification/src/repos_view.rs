//! The repos of one workspace on screen: the list, the pull requests of the
//! selected repo, and the pop-up to add one.
use vstd::prelude::*;
use vstd::string::*;
use vstd::utf8::*;

use crate::input::Rect;
use crate::layout::{
    centered_rect, divides, inside_frame, is_middle, lengths, rows_of, split_rows, stacks, within, Constraint,
};
use crate::list_events::RepoFact;
use crate::overlay_view::less;
use crate::repos::{short_url, short_url_of, shown_are_exact, state_of, App, AppView, Pr, PrState};
use crate::style::{raw, span, Color, Item, Line, Span, SpanView, Style};
use crate::text::{cat, cat3, cat4, cat5, decimal, decimal_of, first_chars, is_some_of, opt_view, own, vec_fits, views};
use crate::ui::{field_style, ink, truncate};

verus! {

// ── The list ─────────────────────────────────────────────────────────────────

/// How many of the first `n` pull requests are the user's.
pub open spec fn mine_count(prs: Seq<Pr>, user: Seq<char>, n: int) -> nat
    decreases n,
{
    if n <= 0 {
        0
    } else {
        mine_count(prs, user, n - 1) + if prs[n - 1].author@ == user {
            1nat
        } else {
            0
        }
    }
}

/// What a repo's line says of its pull requests.
pub open spec fn hint_text(prs: Seq<Pr>, user: Option<Seq<char>>) -> Seq<char> {
    let mine = match user {
        Some(u) => mine_count(prs, u, prs.len() as int),
        None => 0,
    };
    if mine > 0 {
        "  "@ + decimal_of(prs.len()) + " open · "@ + decimal_of(mine) + " mine"@
    } else {
        "  "@ + decimal_of(prs.len()) + " open"@
    }
}

/// A repo's line on its pull requests: on their way, how many, or nothing.
pub open spec fn pr_hint(v: AppView, i: int) -> Seq<SpanView> {
    match state_of(v.pr_cache, v.repos()[i].name@) {
        Some(PrState::Loading) => seq![span("  fetching…"@, ink(Color::DarkGray))],
        Some(PrState::Loaded(prs)) => if prs@.len() > 0 {
            seq![
                span(
                    hint_text(prs@, v.github_user),
                    ink(
                        if i == v.selected {
                            Color::Yellow
                        } else {
                            Color::DarkGray
                        },
                    ),
                ),
            ]
        } else {
            Seq::empty()
        },
        _ => Seq::empty(),
    }
}

/// A repo in a list of `w` cells: whether it is cloned and its name, its URL,
/// its last commit, its pull requests and a blank.
pub open spec fn repo_lines(v: AppView, i: int, fact: RepoFact, w: nat) -> Seq<Seq<SpanView>> {
    let r = v.repos()[i];
    let room = less(w, 2);
    seq![
        seq![
            if fact.exists {
                span("✓ "@, ink(Color::Green))
            } else {
                span("✗ "@, ink(Color::Red))
            },
            span(first_chars(r.name@, room), Style::plain().bold()),
        ],
        seq![span("  "@ + first_chars(short_url_of(r.url@), room), ink(Color::Gray))],
        seq![
            span(
                if fact.exists {
                    "  "@ + first_chars(
                        match fact.last_commit {
                            Some(c) => c@,
                            None => "—"@,
                        },
                        room,
                    )
                } else {
                    "  not cloned"@
                },
                ink(Color::DarkGray),
            ),
        ],
        pr_hint(v, i),
        Seq::empty(),
    ]
}

/// The first `n` repos.
pub open spec fn repo_items(v: AppView, facts: Seq<RepoFact>, w: nat, n: int) -> Seq<Seq<Seq<SpanView>>> {
    Seq::new(n as nat, |i: int| repo_lines(v, i, facts[i], w))
}

/// What an empty list says.
pub open spec fn no_repos_lines() -> Seq<Seq<SpanView>> {
    seq![
        Seq::empty(),
        seq![span("  No repos yet."@, ink(Color::DarkGray))],
        Seq::empty(),
        seq![span("  a  "@, ink(Color::Cyan)), span("add repo"@, ink(Color::DarkGray))],
    ]
}

/// How long ago all pull requests were asked for.
pub open spec fn fetched_text(last: Option<u64>, now: u64) -> Seq<char> {
    match last {
        None => " fetching…"@,
        Some(t) => {
            let s = if now >= t {
                (now - t) / 1000
            } else {
                0
            };
            if s < 60 {
                " ↻ just now"@
            } else {
                " ↻ "@ + decimal_of((s / 60) as nat) + "m ago"@
            }
        },
    }
}

/// The line under the list.
pub open spec fn list_help(v: AppView, now: u64) -> SpanView {
    match v.status_msg {
        Some(m) => span(" "@ + m + " "@, ink(Color::Red)),
        None => span(
            " a add · Enter PRs · r refresh · j/k · q quit  "@ + fetched_text(v.last_pr_fetch, now),
            ink(Color::DarkGray),
        ),
    }
}

/// What an empty list says.
pub fn no_repos() -> (i: Item)
    ensures
        i@ == no_repos_lines(),
{
    let i = Item::empty().with(Line::empty()).with(
        Line::one(Span::styled("  No repos yet.", ink(Color::DarkGray))),
    ).with(Line::empty()).with(
        Line::empty().with(Span::styled("  a  ", ink(Color::Cyan))).with(
            Span::styled("add repo", ink(Color::DarkGray)),
        ),
    );
    assert(i@ =~~= no_repos_lines());
    i
}

/// See [`hint_text`].
fn hint(prs: &Vec<Pr>, user: &Option<String>) -> (out: String)
    ensures
        out@ == hint_text(prs@, opt_view(*user)),
{
    let mut mine: usize = 0;
    if let Some(u) = user {
        let mut i: usize = 0;
        while i < prs.len()
            invariant
                i <= prs@.len(),
                mine <= i,
                mine == mine_count(prs@, u@, i as int),
            decreases prs@.len() - i,
        {
            if crate::text::same(prs[i].author.as_str(), u.as_str()) {
                mine += 1;
            }
            i += 1;
        }
    }
    let total = decimal(prs.len() as u64);
    if mine > 0 {
        cat5("  ", total.as_str(), " open · ", decimal(mine as u64).as_str(), " mine")
    } else {
        cat3("  ", total.as_str(), " open")
    }
}

impl App {
    /// See [`pr_hint`].
    fn hint_line(&self, i: usize) -> (l: Line)
        requires
            i < self@.repos().len(),
        ensures
            l@ == pr_hint(self@, i as int),
    {
        match self.entry_of(self.workspace.config.repos[i].name.as_str()) {
            Some(e) => {
                assert(self@.pr_cache[e as int].1 == self.pr_cache@[e as int].1);
                match &self.pr_cache[e].1 {
                    PrState::Loading => Line::one(Span::styled("  fetching…", ink(Color::DarkGray))),
                    PrState::Loaded(prs) => {
                        if prs.len() > 0 {
                            let c = if i == self.selected { Color::Yellow } else { Color::DarkGray };
                            Line::one(Span::of(hint(prs, &self.github_user), ink(c)))
                        } else {
                            Line::empty()
                        }
                    },
                    PrState::Error(_) => Line::empty(),
                }
            },
            None => Line::empty(),
        }
    }

    /// See [`repo_lines`].
    fn repo_entry(&self, i: usize, fact: &RepoFact, w: usize) -> (item: Item)
        requires
            i < self@.repos().len(),
        ensures
            item@ == repo_lines(self@, i as int, *fact, w as nat),
    {
        let r = &self.workspace.config.repos[i];
        let room: usize = if w < 2 { 0 } else { w - 2 };
        let mark = if fact.exists {
            Span::styled("✓ ", ink(Color::Green))
        } else {
            Span::styled("✗ ", ink(Color::Red))
        };
        let name = Line::empty().with(mark).with(
            Span::of(truncate(r.name.as_str(), room), Style::plain().bold()),
        );
        let url = truncate(short_url(r.url.as_str()).as_str(), room);
        let commit = if fact.exists {
            let text: &str = match &fact.last_commit {
                Some(c) => c.as_str(),
                None => "—",
            };
            cat("  ", truncate(text, room).as_str())
        } else {
            own("  not cloned")
        };
        let item = Item::empty().with(name).with(
            Line::one(Span::of(cat("  ", url.as_str()), ink(Color::Gray))),
        ).with(Line::one(Span::of(commit, ink(Color::DarkGray)))).with(self.hint_line(i)).with(Line::empty());
        assert(item@ =~~= repo_lines(self@, i as int, *fact, w as nat));
        item
    }

    /// The repos in a list of `w` cells; `facts` is what was found of each.
    pub fn list_items(&self, facts: &Vec<RepoFact>, w: usize) -> (items: Vec<Item>)
        requires
            facts@.len() == self@.repos().len(),
        ensures
            views(items@) == repo_items(self@, facts@, w as nat, self@.repos().len() as int),
    {
        let mut items: Vec<Item> = Vec::new();
        let mut i: usize = 0;
        assert(views(items@) =~= repo_items(self@, facts@, w as nat, 0));
        while i < self.workspace.config.repos.len()
            invariant
                i <= self@.repos().len(),
                facts@.len() == self@.repos().len(),
                views(items@) == repo_items(self@, facts@, w as nat, i as int),
            decreases self@.repos().len() - i,
        {
            let ghost before = views(items@);
            items.push(self.repo_entry(i, &facts[i], w));
            assert(views(items@) =~= before.push(repo_lines(self@, i as int, facts@[i as int], w as nat)));
            assert(views(items@) =~= repo_items(self@, facts@, w as nat, i + 1));
            i += 1;
        }
        items
    }

    /// The line under the list.
    pub fn list_help(&self, now: u64) -> (s: Span)
        ensures
            s@ == list_help(self@, now),
    {
        if let Some(m) = &self.status_msg {
            return Span::of(cat3(" ", m.as_str(), " "), ink(Color::Red));
        }
        let ago = match self.last_pr_fetch {
            None => own(" fetching…"),
            Some(t) => {
                let s: u64 = if now >= t { (now - t) / 1000 } else { 0 };
                if s < 60 {
                    own(" ↻ just now")
                } else {
                    cat3(" ↻ ", decimal(s / 60).as_str(), "m ago")
                }
            },
        };
        Span::of(
            cat(" a add · Enter PRs · r refresh · j/k · q quit  ", ago.as_str()),
            ink(Color::DarkGray),
        )
    }
}

/// A repo takes as many rows as the mouse counts for it.
pub proof fn repos_are_five_rows(v: AppView, i: int, fact: RepoFact, w: nat)
    ensures
        repo_lines(v, i, fact, w).len() == crate::repos::REPO_ROWS,
{
}

// ── Pull requests ────────────────────────────────────────────────────────────

/// The bytes a text takes.
pub open spec fn bytes_of(s: Seq<char>) -> nat {
    encode_utf8(s).len()
}

/// The bytes a text takes.
fn byte_len(s: &str) -> (n: usize)
    ensures
        n == bytes_of(s@),
{
    s.as_bytes_vec().len()
}

/// A pull request in a list of `w` cells: its title has what the rest leaves.
pub open spec fn pr_line(p: Pr, user: Option<Seq<char>>, w: nat) -> Seq<SpanView> {
    let draft = if p.is_draft {
        span("[draft] "@, ink(Color::DarkGray))
    } else {
        raw(""@)
    };
    let num = span("#"@ + decimal_of(p.number as nat) + " "@, ink(Color::Cyan));
    let author = span(
        " "@ + first_chars(p.author@, 12),
        ink(
            if user == Some(p.author@) {
                Color::Yellow
            } else {
                Color::Gray
            },
        ),
    );
    let date = span(" "@ + p.age@, ink(Color::DarkGray));
    let taken = bytes_of(author.content) + bytes_of(date.content) + 2 + bytes_of(num.content) + bytes_of(draft.content)
        + 2;
    seq![draft, num, raw(first_chars(p.title@, less(w, taken))), author, date]
}

/// See [`pr_line`].
fn pr_entry(p: &Pr, user: &Option<String>, w: usize) -> (l: Line)
    ensures
        l@ == pr_line(*p, opt_view(*user), w as nat),
{
    let draft = if p.is_draft { Span::styled("[draft] ", ink(Color::DarkGray)) } else { Span::raw("") };
    let num = Span::of(cat3("#", decimal(p.number).as_str(), " "), ink(Color::Cyan));
    let color = if is_some_of(user, p.author.as_str()) { Color::Yellow } else { Color::Gray };
    let author = Span::of(cat(" ", truncate(p.author.as_str(), 12).as_str()), ink(color));
    let date = Span::of(cat(" ", p.age.as_str()), ink(Color::DarkGray));
    let a: usize = byte_len(author.content.as_str());
    let b: usize = byte_len(date.content.as_str());
    let c: usize = byte_len(num.content.as_str());
    let d: usize = byte_len(draft.content.as_str());
    let room: usize = w.saturating_sub(a).saturating_sub(b).saturating_sub(c).saturating_sub(d).saturating_sub(4);
    let title = Span::of(truncate(p.title.as_str(), room), Style::plain());
    Line::empty().with(draft).with(num).with(title).with(author).with(date)
}

/// The lines of the pull requests at those places.
pub open spec fn pr_lines(prs: Seq<Pr>, places: Seq<usize>, user: Option<Seq<char>>, w: nat) -> Seq<Seq<SpanView>> {
    Seq::new(places.len(), |i: int| pr_line(prs[places[i] as int], user, w))
}

/// The name of the selected repo.
pub open spec fn repo_name(v: AppView) -> Seq<char> {
    if v.selected < v.repos().len() {
        v.repos()[v.selected as int].name@
    } else {
        "?"@
    }
}

/// The title over the pull requests.
pub open spec fn prs_title(v: AppView) -> Seq<char> {
    " PRs — "@ + repo_name(v) + (if v.mine_only {
        " [mine]"@
    } else {
        ""@
    }) + " "@
}

/// What is shown of the pull requests: a note, an error, or the list.
pub open spec fn prs_body(v: AppView, w: nat) -> Seq<Seq<SpanView>> {
    match state_of(v.pr_cache, repo_name(v)) {
        None => seq![seq![span("  Loading…"@, ink(Color::DarkGray))]],
        Some(PrState::Loading) => seq![seq![span("  Loading…"@, ink(Color::DarkGray))]],
        Some(PrState::Error(e)) => seq![
            Seq::empty(),
            seq![span("  error: "@ + e@, ink(Color::Red))],
            Seq::empty(),
            seq![span("  Is gh installed and authenticated?"@, ink(Color::DarkGray))],
        ],
        Some(PrState::Loaded(prs)) => if v.visible().len() == 0 {
            seq![
                seq![
                    span(
                        if v.mine_only {
                            "  No open PRs from you.  Press m to show all."@
                        } else {
                            "  No open PRs."@
                        },
                        ink(Color::DarkGray),
                    ),
                ],
            ]
        } else {
            pr_lines(prs@, v.visible(), v.github_user, w)
        },
    }
}

/// The line under the pull requests: how many of them show while only one's own
/// do, else the keys.
pub open spec fn prs_help(v: AppView) -> SpanView {
    match state_of(v.pr_cache, repo_name(v)) {
        Some(PrState::Loaded(prs)) => if v.mine_only && prs@.len() > 0 {
            span(
                " showing "@ + decimal_of(v.visible().len()) + "/"@ + decimal_of(prs@.len()) + " PRs"@,
                ink(Color::DarkGray),
            )
        } else {
            span(" j/k · Enter open · m mine · r refresh · Esc back"@, ink(Color::DarkGray))
        },
        _ => span(" j/k · Enter open · m mine · r refresh · Esc back"@, ink(Color::DarkGray)),
    }
}

/// The pull requests on screen.
#[derive(Debug)]
pub struct PrScreen {
    pub title: String,
    pub area: Rect,
    pub body: Item,
    /// The line drawn as the selected one, where the body is the list.
    pub highlighted: Option<usize>,
    pub help_area: Rect,
    pub help: Span,
}

impl App {
    /// The pull requests of the selected repo at the given places.
    fn pr_items(&self, prs: &Vec<Pr>, places: &Vec<usize>, w: usize) -> (item: Item)
        requires
            forall|k: int| 0 <= k < places@.len() ==> (#[trigger] places@[k]) < prs@.len(),
        ensures
            item@ == pr_lines(prs@, places@, self@.github_user, w as nat),
    {
        let mut item = Item::empty();
        let mut i: usize = 0;
        let ghost all = pr_lines(prs@, places@, self@.github_user, w as nat);
        assert(item@ =~= all.take(0));
        while i < places.len()
            invariant
                i <= places@.len(),
                forall|k: int| 0 <= k < places@.len() ==> (#[trigger] places@[k]) < prs@.len(),
                all == pr_lines(prs@, places@, self@.github_user, w as nat),
                item@ == all.take(i as int),
            decreases places@.len() - i,
        {
            item = item.with(pr_entry(&prs[places[i]], &self.github_user, w));
            assert(item@ =~= all.take(i + 1));
            i += 1;
        }
        assert(all.take(i as int) =~= all);
        item
    }

    /// The name of the selected repo.
    fn repo_name(&self) -> (name: &str)
        ensures
            name@ == repo_name(self@),
    {
        if self.selected < self.workspace.config.repos.len() {
            self.workspace.config.repos[self.selected].name.as_str()
        } else {
            "?"
        }
    }

    /// What is shown of the pull requests in `w` cells.
    pub fn prs_lines(&self, w: usize) -> (item: Item)
        ensures
            item@ == prs_body(self@, w as nat),
    {
        let item = match self.entry_of(self.repo_name()) {
            None => Item::one(Line::one(Span::styled("  Loading…", ink(Color::DarkGray)))),
            Some(e) => {
                assert(self@.pr_cache[e as int].1 == self.pr_cache@[e as int].1);
                match &self.pr_cache[e].1 {
                    PrState::Loading => Item::one(Line::one(Span::styled("  Loading…", ink(Color::DarkGray)))),
                    PrState::Error(err) => Item::empty().with(Line::empty()).with(
                        Line::one(Span::of(cat("  error: ", err.as_str()), ink(Color::Red))),
                    ).with(Line::empty()).with(
                        Line::one(Span::styled("  Is gh installed and authenticated?", ink(Color::DarkGray))),
                    ),
                    PrState::Loaded(prs) => {
                        let places = self.visible_prs();
                        if places.len() == 0 {
                            let text = if self.mine_only {
                                "  No open PRs from you.  Press m to show all."
                            } else {
                                "  No open PRs."
                            };
                            Item::one(Line::one(Span::styled(text, ink(Color::DarkGray))))
                        } else {
                            proof {
                                vec_fits(*prs);
                                shown_are_exact(prs@, self.mine_only, self@.github_user, prs@.len() as int);
                            }
                            self.pr_items(prs, &places, w)
                        }
                    },
                }
            },
        };
        assert(item@ =~~= prs_body(self@, w as nat));
        item
    }

    /// The line under the pull requests.
    pub fn prs_help(&self) -> (s: Span)
        ensures
            s@ == prs_help(self@),
    {
        if let Some(e) = self.entry_of(self.repo_name()) {
            assert(self@.pr_cache[e as int].1 == self.pr_cache@[e as int].1);
            if let PrState::Loaded(prs) = &self.pr_cache[e].1 {
                if self.mine_only && prs.len() > 0 {
                    let seen = decimal(self.visible_prs().len() as u64);
                    let all = decimal(prs.len() as u64);
                    return Span::of(
                        cat5(" showing ", seen.as_str(), "/", all.as_str(), " PRs"),
                        ink(Color::DarkGray),
                    );
                }
            }
        }
        Span::styled(" j/k · Enter open · m mine · r refresh · Esc back", ink(Color::DarkGray))
    }

    /// The title over the pull requests.
    pub fn prs_title(&self) -> (out: String)
        ensures
            out@ == prs_title(self@),
    {
        let mine = if self.mine_only { " [mine]" } else { "" };
        cat4(" PRs — ", self.repo_name(), mine, " ")
    }

    /// Draw the pull requests over `area`, remembering where the list stands
    /// for the mouse.
    pub fn render_pr_popup(&mut self, area: Rect) -> (s: PrScreen)
        requires
            old(self)@.wf(),
            area.x + area.width <= u16::MAX,
            area.y + area.height <= u16::MAX,
        ensures
            s.title@ == prs_title(old(self)@),
            within(s.area, area),
            within(s.help_area, area),
            s.area.width == inside_frame(area).width,
            inside_frame(area).height >= 1 ==> s.area == rows_of(inside_frame(area), 0, inside_frame(area).height - 1)
                && s.help_area == rows_of(inside_frame(area), inside_frame(area).height - 1, 1),
            s.body@ == prs_body(old(self)@, s.area.width as nat),
            s.highlighted == (if old(self)@.visible().len() > 0 {
                Some(old(self)@.pr_selected)
            } else {
                None
            }),
            s.help@ == prs_help(old(self)@),
            final(self)@ == (AppView {
                pr_list_area: if old(self)@.visible().len() > 0 {
                    s.area
                } else {
                    old(self)@.pr_list_area
                },
                ..old(self)@
            }),
            final(self)@.wf(),
    {
        proof {
            crate::layout::inside_frame_is_within(area);
        }
        let inner = inside_frame(area);
        let (list, foot) = list_parts(inner);
        let body = self.prs_lines(list.width as usize);
        let title = self.prs_title();
        let help = self.prs_help();
        let mut highlighted: Option<usize> = None;
        if self.visible_prs().len() > 0 {
            self.pr_list_area = list;
            highlighted = Some(self.pr_selected);
        }
        PrScreen { title, area: list, body, highlighted, help_area: foot, help }
    }
}

// ── The pop-up ───────────────────────────────────────────────────────────────

/// The pop-up on screen: its frame, and where each line goes.
#[derive(Debug)]
pub struct AddPopup {
    pub frame: Rect,
    pub title: &'static str,
    pub url_label: (Rect, &'static str),
    pub url: (Rect, Span),
    pub name_label: (Rect, &'static str),
    pub name: (Rect, Span),
    pub help: (Rect, Span),
}

/// Where the lines of the pop-up stand: one under the other in its frame, the
/// help at the bottom, where there is room for all.
pub open spec fn add_popup_placed(p: AddPopup) -> bool {
    let inner = inside_frame(p.frame);
    inner.height >= 7 ==> {
        &&& p.url_label.0 == rows_of(inner, 1, 1)
        &&& p.url.0 == rows_of(inner, 2, 1)
        &&& p.name_label.0 == rows_of(inner, 4, 1)
        &&& p.name.0 == rows_of(inner, 5, 1)
        &&& p.help.0 == rows_of(inner, inner.height - 1, 1)
    }
}

/// What the pop-up shows.
pub open spec fn add_popup_shows(v: AppView, p: AddPopup) -> bool {
    &&& p.title@ == " Add Repo "@
    &&& p.url_label.1@ == "  URL:"@
    &&& p.url.1@ == span("  ["@ + v.add_url + "]"@, field_style(v.add_focus == 0))
    &&& p.name_label.1@ == "  Name: (optional, inferred from URL)"@
    &&& p.name.1@ == span("  ["@ + v.add_name + "]"@, field_style(v.add_focus == 1))
    &&& p.help.1@ == (match v.status_msg {
        Some(m) => span("  "@ + m, ink(Color::Red)),
        None => span("  Tab · Enter add · Esc cancel"@, ink(Color::DarkGray)),
    })
}

/// A field of the pop-up.
fn field(text: &str, focused: bool) -> (s: Span)
    ensures
        s@ == span("  ["@ + text@ + "]"@, field_style(focused)),
{
    Span::of(cat3("  [", text, "]"), if focused { ink(Color::Yellow) } else { Style::plain() })
}

impl App {
    /// Draw the pop-up over `area`.
    pub fn render_add_popup(&self, area: Rect) -> (p: AddPopup)
        requires
            area.x + area.width <= u16::MAX,
            area.y + area.height <= u16::MAX,
        ensures
            add_popup_shows(self@, p),
            is_middle(p.frame, 90, 50, area),
            add_popup_placed(p),
            within(p.url.0, p.frame),
            within(p.name.0, p.frame),
            within(p.help.0, p.frame),
    {
        let frame = centered_rect(90, 50, area);
        let inner = inside_frame(frame);
        proof {
            crate::layout::inside_frame_is_within(frame);
        }
        let wanted = vec![
            Constraint::Length(1),
            Constraint::Length(1),
            Constraint::Length(1),
            Constraint::Length(1),
            Constraint::Length(1),
            Constraint::Length(1),
            Constraint::Min(0),
            Constraint::Length(1),
        ];
        let parts = split_rows(inner, &wanted);
        proof {
            crate::layout::single_rows(inner, wanted@, parts@);
        }
        assert(forall|i: int| 0 <= i < parts@.len() ==> within(#[trigger] parts@[i], frame));
        let help = match &self.status_msg {
            Some(m) => Span::of(cat("  ", m.as_str()), ink(Color::Red)),
            None => Span::styled("  Tab · Enter add · Esc cancel", ink(Color::DarkGray)),
        };
        AddPopup {
            frame,
            title: " Add Repo ",
            url_label: (parts[1], "  URL:"),
            url: (parts[2], field(self.add_url.as_str(), self.add_focus == 0)),
            name_label: (parts[4], "  Name: (optional, inferred from URL)"),
            name: (parts[5], field(self.add_name.as_str(), self.add_focus == 1)),
            help: (parts[7], help),
        }
    }
}

/// Where the list and the line under it go.
pub fn list_parts(area: Rect) -> (parts: (Rect, Rect))
    requires
        area.x + area.width <= u16::MAX,
        area.y + area.height <= u16::MAX,
    ensures
        within(parts.0, area),
        within(parts.1, area),
        parts.0.width == area.width,
        area.height >= 1 ==> parts == (rows_of(area, 0, area.height - 1), rows_of(area, area.height - 1, 1)),
{
    let wanted = vec![Constraint::Min(0), Constraint::Length(1)];
    let parts = split_rows(area, &wanted);
    proof {
        reveal_with_fuel(lengths, 3);
        assert(area.height >= 1 ==> stacks(wanted@, 0, area.height));
        assert(divides(wanted@, area.height, 0, parts@[0].y - area.y, parts@[0].height as int));
        assert(divides(wanted@, area.height, 1, parts@[1].y - area.y, parts@[1].height as int));
    }
    (parts[0], parts[1])
}

} // verus!
