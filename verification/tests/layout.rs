//! Where things go, over many sizes of the screen.
use tenx::body::list_areas;
use tenx::input::Rect;
use tenx::layout::{centered_rect, inside_frame};
use tenx::overlay::Overlay;
use tenx::repos::App as Repos;
use tenx::repos_view;
use tenx::screens::form_areas;
use tenx::ui;
use tenx::workspace::{RepoConfig, Workspace, WorkspaceConfig};

/// The edge after so many hundredths of `total` cells.
fn edge(total: u16, percent: u16) -> u16 {
    ((u32::from(total) * u32::from(percent) + 50) / 100) as u16
}

fn rows(area: Rect, from: u16, n: u16) -> Rect {
    Rect::new(area.x, area.y + from, area.width, n)
}

fn within(part: Rect, area: Rect) -> bool {
    area.x <= part.x
        && part.x + part.width <= area.x + area.width
        && area.y <= part.y
        && part.y + part.height <= area.y + area.height
}

fn workspace(n: usize) -> Workspace {
    Workspace {
        dir: "/w".into(),
        config: WorkspaceConfig {
            name: "w".into(),
            layout: String::new(),
            repos: (0..n).map(|i| RepoConfig { name: format!("r{i}"), url: String::new() }).collect(),
            age_identity: None,
        },
    }
}

#[test]
fn the_middle_is_where_the_shares_say() {
    for (px, py) in [(55, 60), (90, 50), (33, 7), (100, 0), (1, 99)] {
        for w in (0..90).chain([150, 213, 999, 40_000]) {
            for (x, y, h) in [(0, 0, 24), (7, 3, 41), (1000, 0, 0), (0, 9, 1)] {
                let area = Rect::new(x, y, w, h);
                let r = centered_rect(px, py, area);
                let (sx, sy) = ((100 - px) / 2, (100 - py) / 2);
                assert_eq!((r.x, r.x + r.width), (x + edge(w, sx), x + edge(w, sx + px)), "{px} of {area:?}");
                assert_eq!((r.y, r.y + r.height), (y + edge(h, sy), y + edge(h, sy + py)), "{py} of {area:?}");
            }
        }
    }
}

#[test]
fn lists_keep_their_bars() {
    for h in (0..70).chain([500, 30_000]) {
        for (x, y, w) in [(0, 0, 36), (5, 2, 150), (0, 0, 0)] {
            let area = Rect::new(x, y, w, h);
            let a = list_areas(area);
            for part in [a.tabs, a.search, a.list, a.footer] {
                assert!(within(part, area), "{part:?} of {area:?}");
            }
            if h >= 6 {
                assert_eq!(a.tabs, rows(area, 0, 1));
                assert_eq!(a.search, rows(area, 1, 3));
                assert_eq!(a.list, rows(area, 4, h - 5));
                assert_eq!(a.footer, rows(area, h - 1, 1));
            }
            let (body, foot) = form_areas(area);
            assert!(within(body, area) && within(foot, area));
            if h >= 2 {
                assert_eq!((body, foot), (rows(area, 0, h - 1), rows(area, h - 1, 1)));
            }
            let (list, help) = repos_view::list_parts(area);
            assert!(within(list, area) && within(help, area));
            if h >= 1 {
                assert_eq!((list, help), (rows(area, 0, h - 1), rows(area, h - 1, 1)));
            }
            let (head, list, help) = ui::list_parts(area);
            assert!(within(head, area) && within(list, area) && within(help, area));
            if h >= 3 {
                assert_eq!((head, list, help), (rows(area, 0, 2), rows(area, 2, h - 3), rows(area, h - 1, 1)));
            }
        }
    }
}

#[test]
fn popups_stand_line_by_line() {
    for n in [0usize, 1, 4, 11] {
        let mut a = tenx::app::App::new(workspace(n));
        for h in 0..80 {
            let area = Rect::new(2, 1, 101, h);
            let p = a.render_create(area);
            let inner = inside_frame(p.frame);
            assert!(within(p.name.0, p.frame) && within(p.help.0, p.frame));
            if usize::from(inner.height) >= n + 6 {
                assert_eq!(p.name_label, (rows(inner, 1, 1), "  Name:"));
                assert_eq!(p.name.0, rows(inner, 2, 1));
                assert_eq!(p.repos_label, (rows(inner, 4, 1), "  Repos:"));
                for (i, (at, _)) in p.repos.iter().enumerate() {
                    assert_eq!(*at, rows(inner, 5 + i as u16, 1));
                }
                assert_eq!(p.help.0, rows(inner, inner.height - 1, 1));
            }
        }
    }
    let a = Repos::new(workspace(1));
    for h in 0..80 {
        let p = a.render_add_popup(Rect::new(0, 0, 77, h));
        let inner = inside_frame(p.frame);
        if inner.height >= 7 {
            assert_eq!((p.url_label.0, p.url.0), (rows(inner, 1, 1), rows(inner, 2, 1)));
            assert_eq!((p.name_label.0, p.name.0), (rows(inner, 4, 1), rows(inner, 5, 1)));
            assert_eq!(p.help.0, rows(inner, inner.height - 1, 1));
        }
    }
}

#[test]
fn a_preview_takes_two_fifths() {
    let mut o = Overlay::empty(false);
    o.set_preview(Some("%1".into()), Some("x"));
    for w in 100..230 {
        let (s, preview) = o.render_list(Rect::new(0, 0, w, 30));
        let p = preview.unwrap();
        assert_eq!(s.areas.list.width, edge(w, 60));
        assert_eq!((p.x, p.width, p.height), (edge(w, 60), w - edge(w, 60), s.areas.list.height));
    }
}
