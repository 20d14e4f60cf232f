use guide_browser::guide::Guide;
use guide_browser::page::Page;
use guide_browser::prefs::{load_config, Config, Mode, DARK_TEXT, LIGHT_TEXT, STORAGE_KEY};
use guide_browser::route::Route;
use guide_browser::search::{search, search_lowered};
use guide_browser::state::{init, is_in_prerendering, routes, update, Command, Model, Msg, Visibility};

fn guide(slug: &'static str, menu_title: &'static str, text: &'static str) -> Guide {
    Guide { slug, menu_title, lowercase_text: text }
}

fn catalog() -> Vec<Guide> {
    vec![
        guide("about", "About", "seed is a frontend framework"),
        guide("intro", "Introduction", "foo bar"),
        guide("intro", "Second intro", "bar baz"),
    ]
}

fn model_with(guides: Vec<Guide>) -> Model {
    init(Route::Root, guides, false, Config::default()).0
}

#[test]
fn route_from_empty_path_is_root() {
    assert_eq!(Route::from_path_parts(&[]), Route::Root);
}

#[test]
fn route_from_guide_path() {
    assert_eq!(Route::from_path_parts(&["guide", "x"]), Route::Guide("x".to_string()));
}

#[test]
fn route_from_long_guide_path_is_unknown() {
    assert_eq!(Route::from_path_parts(&["guide", "x", "y"]), Route::Unknown);
}

#[test]
fn route_from_other_path_is_unknown() {
    assert_eq!(Route::from_path_parts(&["foo"]), Route::Unknown);
    assert_eq!(Route::from_path_parts(&["Guide", "x"]), Route::Unknown);
    assert_eq!(Route::from_path_parts(&["guide"]), Route::Unknown);
}

#[test]
fn route_paths_and_urls() {
    assert_eq!(Route::Root.path(), Vec::<String>::new());
    assert_eq!(Route::Guide("x".to_string()).path(), vec!["guide".to_string(), "x".to_string()]);
    assert_eq!(Route::Unknown.path(), vec!["404".to_string()]);
    assert_eq!(Route::Root.to_string(), "/");
    assert_eq!(Route::Guide("x".to_string()).to_string(), "/guide/x");
    assert_eq!(Route::Unknown.to_string(), "/404");
}

#[test]
fn route_path_round_trip() {
    let r = Route::Guide("intro".to_string());
    let path = r.path();
    let parts: Vec<&str> = path.iter().map(|s| s.as_str()).collect();
    assert_eq!(Route::from_path_parts(&parts), r);
    assert_eq!(Route::from_path_parts(&[]), Route::Root);
    assert_eq!(Route::from_path_parts(&["404"]), Route::Unknown);
}

#[test]
fn routes_wraps_route_in_message() {
    assert_eq!(routes(&["guide", "intro"]), Some(Msg::RouteChanged(Route::Guide("intro".to_string()))));
    assert_eq!(routes(&[]), Some(Msg::RouteChanged(Route::Root)));
}

#[test]
fn root_page_with_empty_catalog_is_not_found() {
    assert_eq!(Page::from_route_and_replace_history(&Route::Root, &[]), Page::NotFound);
}

#[test]
fn root_page_takes_first_guide_with_intro() {
    let g0 = guide("a", "A", "first");
    let g1 = guide("b", "B", "second");
    assert_eq!(
        Page::from_route_and_replace_history(&Route::Root, &[g0, g1]),
        Page::Guide { guide: g0, show_intro: true }
    );
}

#[test]
fn missing_slug_is_not_found() {
    let gx = guide("x", "X", "text");
    assert_eq!(
        Page::from_route_and_replace_history(&Route::Guide("missing".to_string()), &[gx]),
        Page::NotFound
    );
}

#[test]
fn guide_route_takes_first_guide_with_slug() {
    let guides = catalog();
    assert_eq!(
        Page::from_route_and_replace_history(&Route::Guide("intro".to_string()), &guides),
        Page::Guide { guide: guides[1], show_intro: false }
    );
    assert_eq!(
        Page::from_route_and_replace_history(&Route::Guide("INTRO".to_string()), &guides),
        Page::NotFound
    );
    assert_eq!(Page::from_route_and_replace_history(&Route::Unknown, &guides), Page::NotFound);
}

#[test]
fn page_hrefs_and_titles() {
    let g = guide("intro", "Introduction", "text");
    let page = Page::Guide { guide: g, show_intro: false };
    assert_eq!(page.to_href(), "/guide/intro");
    assert_eq!(Page::NotFound.to_href(), "/404");
    assert_eq!(page.title(), "Introduction - Seed");
    assert_eq!(Page::NotFound.title(), "404 - Seed");
}

#[test]
fn empty_query_matches_nothing() {
    assert_eq!(search(&catalog(), ""), Vec::<Guide>::new());
}

#[test]
fn search_is_case_insensitive() {
    let a = guide("a", "A", "hello world");
    assert_eq!(search(&[a], "WORLD"), vec![a]);
    assert_eq!(search(&[a], "World"), vec![a]);
}

#[test]
fn search_without_match_is_empty() {
    let g1 = guide("a", "A", "abc");
    let g2 = guide("b", "B", "xyz");
    assert_eq!(search(&[g1, g2], "q"), Vec::<Guide>::new());
}

#[test]
fn search_keeps_catalog_order() {
    let g1 = guide("a", "A", "foo bar");
    let g2 = guide("b", "B", "bar baz");
    let g3 = guide("c", "C", "qux");
    assert_eq!(search(&[g1, g3, g2], "bar"), vec![g1, g2]);
    assert_eq!(search(&[g2, g1], "bar"), vec![g2, g1]);
}

#[test]
fn search_lowered_matches_substrings() {
    let g1 = guide("a", "A", "foo bar");
    let g2 = guide("b", "B", "bar baz");
    assert_eq!(search_lowered(&[g1, g2], "o b"), vec![g1]);
    assert_eq!(search_lowered(&[g1, g2], "BAR"), Vec::<Guide>::new());
    assert_eq!(search_lowered(&[g1, g2], ""), vec![g1, g2]);
}

#[test]
fn toggles_flip_and_come_back() {
    let mut m = Mode::Light;
    m.toggle();
    assert_eq!(m, Mode::Dark);
    m.toggle();
    assert_eq!(m, Mode::Light);
    let mut v = Visibility::Hidden;
    v.toggle();
    assert_eq!(v, Visibility::Visible);
    v.toggle();
    assert_eq!(v, Visibility::Hidden);
    assert_eq!(Mode::default(), Mode::Light);
}

#[test]
fn toggle_mode_twice_restores_mode() {
    let mut model = model_with(catalog());
    let first = update(Msg::ToggleMode, &mut model);
    assert_eq!(model.mode, Mode::Dark);
    assert_eq!(first, vec![Command::SaveConfig(Config { mode: Mode::Dark })]);
    let second = update(Msg::ToggleMode, &mut model);
    assert_eq!(model.mode, Mode::Light);
    assert_eq!(second, vec![Command::SaveConfig(Config { mode: Mode::Light })]);
}

#[test]
fn toggle_guide_list_twice_restores_visibility() {
    let mut model = model_with(catalog());
    assert!(update(Msg::ToggleGuideList, &mut model).is_empty());
    assert_eq!(model.guide_list_visibility, Visibility::Visible);
    assert_eq!(model.menu_visibility, Visibility::Hidden);
    update(Msg::ToggleGuideList, &mut model);
    assert_eq!(model.guide_list_visibility, Visibility::Hidden);
}

#[test]
fn hide_and_toggle_menu() {
    let mut model = model_with(catalog());
    update(Msg::ToggleMenu, &mut model);
    assert_eq!(model.menu_visibility, Visibility::Visible);
    update(Msg::ToggleGuideList, &mut model);
    update(Msg::HideMenu, &mut model);
    assert_eq!(model.menu_visibility, Visibility::Hidden);
    assert_eq!(model.guide_list_visibility, Visibility::Visible);
    update(Msg::HideGuideList, &mut model);
    assert_eq!(model.guide_list_visibility, Visibility::Hidden);
}

#[test]
fn saved_config_loads_back() {
    let dark = Config { mode: Mode::Dark };
    let text = dark.stored_text();
    assert_eq!(text, DARK_TEXT);
    assert_eq!(load_config(Some(&text)), dark);
    let light = Config { mode: Mode::Light };
    assert_eq!(load_config(Some(&light.stored_text())), light);
    assert_eq!(STORAGE_KEY, "seed");
}

#[test]
fn missing_or_malformed_config_is_default() {
    assert_eq!(load_config(None), Config { mode: Mode::Light });
    assert_eq!(load_config(Some("not a record")), Config { mode: Mode::Light });
    assert_eq!(load_config(Some(LIGHT_TEXT)), Config::default());
}

#[test]
fn route_change_selects_guide_and_queues_follow_ups() {
    let guides = catalog();
    let mut model = model_with(guides.clone());
    let cmds = update(Msg::RouteChanged(Route::Guide("intro".to_string())), &mut model);
    assert_eq!(model.page, Page::Guide { guide: guides[1], show_intro: false });
    assert_eq!(cmds, vec![Command::Send(Msg::ScrollToTop), Command::Send(Msg::UpdatePageTitle)]);
    let title = update(Msg::UpdatePageTitle, &mut model);
    assert_eq!(title, vec![Command::SetTitle("Introduction - Seed".to_string())]);
    assert_eq!(update(Msg::ScrollToTop, &mut model), vec![Command::ScrollToTop]);
}

#[test]
fn unknown_route_gives_not_found_title() {
    let mut model = model_with(catalog());
    update(Msg::RouteChanged(Route::Unknown), &mut model);
    assert_eq!(model.page, Page::NotFound);
    let title = update(Msg::UpdatePageTitle, &mut model);
    assert_eq!(title, vec![Command::SetTitle("404 - Seed".to_string())]);
}

#[test]
fn search_query_message_updates_matches() {
    let guides = catalog();
    let mut model = model_with(guides.clone());
    assert!(update(Msg::SearchQueryChanged("BAR".to_string()), &mut model).is_empty());
    assert_eq!(model.search_query, "BAR");
    assert_eq!(model.matched_guides, vec![guides[1], guides[2]]);
    update(Msg::SearchQueryChanged(String::new()), &mut model);
    assert!(model.matched_guides.is_empty());
}

#[test]
fn init_builds_start_model() {
    let guides = catalog();
    let (model, cmds) = init(Route::Root, guides.clone(), true, Config { mode: Mode::Dark });
    assert_eq!(model.page, Page::Guide { guide: guides[0], show_intro: true });
    assert_eq!(model.guide_list_visibility, Visibility::Hidden);
    assert_eq!(model.menu_visibility, Visibility::Hidden);
    assert!(model.in_prerendering);
    assert_eq!(model.guides, guides);
    assert_eq!(model.search_query, "");
    assert!(model.matched_guides.is_empty());
    assert_eq!(model.mode, Mode::Dark);
    assert_eq!(cmds, vec![Command::Send(Msg::RouteChanged(Route::Root)), Command::Send(Msg::UpdatePageTitle)]);
    let (empty, _) = init(Route::Root, Vec::new(), false, Config::default());
    assert_eq!(empty.page, Page::NotFound);
}

#[test]
fn prerendering_agent_is_detected() {
    assert!(is_in_prerendering("ReactSnap"));
    assert!(!is_in_prerendering("Mozilla/5.0"));
    assert!(!is_in_prerendering("reactsnap"));
}
