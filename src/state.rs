use vstd::prelude::*;
use crate::guide::Guide;
use crate::page::{Page, page_for, page_title, first_with_slug};
use crate::prefs::{Config, Mode};
use crate::route::{Route, route_of_parts, views_of};
use crate::search::{search, search_result};
use crate::text::same_text;

verus! {

/// Client identifier that a pre-rendering crawler reports.
pub const USER_AGENT_FOR_PRERENDERING: &'static str = "ReactSnap";

/// Whether a panel is shown.
#[derive(Clone, Copy, Debug, PartialEq, Eq, Structural)]
pub enum Visibility {
    Visible,
    Hidden,
}

impl Visibility {
    pub open spec fn toggled(self) -> Visibility {
        match self {
            Visibility::Visible => Visibility::Hidden,
            Visibility::Hidden => Visibility::Visible,
        }
    }

    pub fn toggle(&mut self)
        ensures
            *final(self) == old(self).toggled(),
    {
        *self = match self {
            Visibility::Visible => Visibility::Hidden,
            Visibility::Hidden => Visibility::Visible,
        };
    }
}

/// The whole state of the browser.
pub struct Model {
    pub page: Page,
    pub guide_list_visibility: Visibility,
    pub menu_visibility: Visibility,
    pub in_prerendering: bool,
    pub guides: Vec<Guide>,
    pub search_query: String,
    pub matched_guides: Vec<Guide>,
    pub mode: Mode,
}

/// The model with its strings and lists as sequences.
pub struct ModelView {
    pub page: Page,
    pub guide_list_visibility: Visibility,
    pub menu_visibility: Visibility,
    pub in_prerendering: bool,
    pub guides: Seq<Guide>,
    pub search_query: Seq<char>,
    pub matched_guides: Seq<Guide>,
    pub mode: Mode,
}

impl View for Model {
    type V = ModelView;

    open spec fn view(&self) -> ModelView {
        ModelView {
            page: self.page,
            guide_list_visibility: self.guide_list_visibility,
            menu_visibility: self.menu_visibility,
            in_prerendering: self.in_prerendering,
            guides: self.guides@,
            search_query: self.search_query@,
            matched_guides: self.matched_guides@,
            mode: self.mode,
        }
    }
}

/// The matched guides are the search result for the current query.
pub open spec fn search_consistent(m: ModelView) -> bool {
    m.matched_guides == search_result(m.guides, m.search_query)
}

/// A requested transition.
#[derive(Clone, Debug, PartialEq, Eq)]
pub enum Msg {
    RouteChanged(Route),
    UpdatePageTitle,
    ScrollToTop,
    ToggleGuideList,
    HideGuideList,
    ToggleMenu,
    HideMenu,
    SearchQueryChanged(String),
    ToggleMode,
}

/// What a transition asks of its surroundings, in order.
#[derive(Clone, Debug, PartialEq, Eq)]
pub enum Command {
    /// Append a follow-up message to the end of the queue.
    Send(Msg),
    /// Set the document title.
    SetTitle(String),
    /// Scroll the viewport to the top.
    ScrollToTop,
    /// Persist the configuration; a failure to do so is fatal.
    SaveConfig(Config),
}

/// The model after a message.
pub open spec fn step(m: ModelView, msg: Msg) -> ModelView {
    match msg {
        Msg::RouteChanged(route) => ModelView { page: page_for(route, m.guides), ..m },
        Msg::ToggleGuideList => ModelView {
            guide_list_visibility: m.guide_list_visibility.toggled(),
            ..m
        },
        Msg::HideGuideList => ModelView { guide_list_visibility: Visibility::Hidden, ..m },
        Msg::ToggleMenu => ModelView { menu_visibility: m.menu_visibility.toggled(), ..m },
        Msg::HideMenu => ModelView { menu_visibility: Visibility::Hidden, ..m },
        Msg::SearchQueryChanged(q) => ModelView {
            search_query: q@,
            matched_guides: search_result(m.guides, q@),
            ..m
        },
        Msg::ToggleMode => ModelView { mode: m.mode.toggled(), ..m },
        Msg::UpdatePageTitle => m,
        Msg::ScrollToTop => m,
    }
}

/// `cmds` are the commands that a message issues on model `m`.
pub open spec fn issued(m: ModelView, msg: Msg, cmds: Seq<Command>) -> bool {
    match msg {
        Msg::RouteChanged(_) => cmds == seq![
            Command::Send(Msg::ScrollToTop),
            Command::Send(Msg::UpdatePageTitle),
        ],
        Msg::UpdatePageTitle => {
            &&& cmds.len() == 1
            &&& cmds[0] is SetTitle
            &&& cmds[0]->SetTitle_0@ == page_title(m.page)
        },
        Msg::ScrollToTop => cmds == seq![Command::ScrollToTop],
        Msg::ToggleMode => cmds == seq![Command::SaveConfig(Config { mode: m.mode.toggled() })],
        _ => cmds.len() == 0,
    }
}

/// Applies one message to the model and returns what it asks of its
/// surroundings: follow-up messages to queue and effects to perform.
pub fn update(msg: Msg, model: &mut Model) -> (r: Vec<Command>)
    ensures
        final(model)@ == step(old(model)@, msg),
        issued(old(model)@, msg, r@),
        search_consistent(old(model)@) ==> search_consistent(final(model)@),
{
    let ghost msg0 = msg;
    let mut r: Vec<Command> = Vec::new();
    match msg {
        Msg::RouteChanged(route) => {
            model.page = Page::from_route_and_replace_history(&route, model.guides.as_slice());
            r.push(Command::Send(Msg::ScrollToTop));
            r.push(Command::Send(Msg::UpdatePageTitle));
            assert(r@ =~= seq![Command::Send(Msg::ScrollToTop), Command::Send(Msg::UpdatePageTitle)]);
        },
        Msg::UpdatePageTitle => {
            r.push(Command::SetTitle(model.page.title()));
        },
        Msg::ScrollToTop => {
            r.push(Command::ScrollToTop);
            assert(r@ =~= seq![Command::ScrollToTop]);
        },
        Msg::ToggleGuideList => model.guide_list_visibility.toggle(),
        Msg::HideGuideList => {
            model.guide_list_visibility = Visibility::Hidden;
        },
        Msg::ToggleMenu => model.menu_visibility.toggle(),
        Msg::HideMenu => {
            model.menu_visibility = Visibility::Hidden;
        },
        Msg::SearchQueryChanged(query) => {
            model.matched_guides = search(model.guides.as_slice(), query.as_str());
            model.search_query = query;
        },
        Msg::ToggleMode => {
            model.mode.toggle();
            r.push(Command::SaveConfig(Config { mode: model.mode }));
            assert(r@ =~= seq![Command::SaveConfig(Config { mode: model.mode })]);
        },
    }
    assert(final(model)@ == step(old(model)@, msg0));
    proof {
        if search_consistent(old(model)@) {
            lemma_search_stays_consistent(old(model)@, msg0);
        }
    }
    r
}

/// The model at start-up, and the messages queued with it: the start-up
/// route is dispatched once more, then the title is set.
pub fn init(route: Route, guides: Vec<Guide>, in_prerendering: bool, config: Config) -> (r: (
    Model,
    Vec<Command>,
))
    ensures
        r.0@ == (ModelView {
            page: page_for(route, guides@),
            guide_list_visibility: Visibility::Hidden,
            menu_visibility: Visibility::Hidden,
            in_prerendering,
            guides: guides@,
            search_query: Seq::empty(),
            matched_guides: Seq::empty(),
            mode: config.mode,
        }),
        r.1@ == seq![Command::Send(Msg::RouteChanged(route)), Command::Send(Msg::UpdatePageTitle)],
        search_consistent(r.0@),
{
    let page = Page::from_route_and_replace_history(&route, guides.as_slice());
    let model = Model {
        page,
        guide_list_visibility: Visibility::Hidden,
        menu_visibility: Visibility::Hidden,
        in_prerendering,
        guides,
        search_query: String::new(),
        matched_guides: Vec::new(),
        mode: config.mode,
    };
    let mut cmds: Vec<Command> = Vec::new();
    cmds.push(Command::Send(Msg::RouteChanged(route)));
    cmds.push(Command::Send(Msg::UpdatePageTitle));
    assert(cmds@ =~= seq![Command::Send(Msg::RouteChanged(route)), Command::Send(Msg::UpdatePageTitle)]);
    (model, cmds)
}

/// The message for a navigation to the path with these segments.
pub fn routes(parts: &[&str]) -> (r: Option<Msg>)
    ensures
        r is Some,
        r->Some_0 is RouteChanged,
        route_of_parts(views_of(parts@), r->Some_0->RouteChanged_0),
{
    Some(Msg::RouteChanged(Route::from_path_parts(parts)))
}

/// Whether the reported client identifier is that of a pre-rendering crawl.
pub fn is_in_prerendering(user_agent: &str) -> (r: bool)
    ensures
        r == (user_agent@ == USER_AGENT_FOR_PRERENDERING@),
{
    same_text(user_agent, USER_AGENT_FOR_PRERENDERING)
}

/// Toggling the mode twice gives the model back.
pub proof fn lemma_toggle_mode_twice(m: ModelView)
    ensures
        step(step(m, Msg::ToggleMode), Msg::ToggleMode) == m,
{
    assert(m.mode.toggled().toggled() == m.mode);
}

/// Toggling the guide list twice gives the model back.
pub proof fn lemma_toggle_guide_list_twice(m: ModelView)
    ensures
        step(step(m, Msg::ToggleGuideList), Msg::ToggleGuideList) == m,
{
    assert(m.guide_list_visibility.toggled().toggled() == m.guide_list_visibility);
}

/// Toggling or hiding one panel leaves the other as it was.
pub proof fn lemma_panels_independent(m: ModelView)
    ensures
        step(m, Msg::ToggleGuideList).menu_visibility == m.menu_visibility,
        step(m, Msg::HideGuideList).menu_visibility == m.menu_visibility,
        step(m, Msg::ToggleMenu).guide_list_visibility == m.guide_list_visibility,
        step(m, Msg::HideMenu).guide_list_visibility == m.guide_list_visibility,
{
}

/// Every message keeps the matched guides equal to the search result for
/// the current query.
pub proof fn lemma_search_stays_consistent(m: ModelView, msg: Msg)
    requires
        search_consistent(m),
    ensures
        search_consistent(step(m, msg)),
{
}

/// Navigating to a guide route whose slug is in the catalog selects the
/// first guide with that slug, without the introduction, and queues exactly
/// a scroll to the top and then a title update.
pub proof fn lemma_navigate_to_guide(m: ModelView, slug: String, i: int, cmds: Seq<Command>)
    requires
        first_with_slug(m.guides, slug@, i),
        issued(m, Msg::RouteChanged(Route::Guide(slug)), cmds),
    ensures
        step(m, Msg::RouteChanged(Route::Guide(slug))).page
            == (Page::Guide { guide: m.guides[i], show_intro: false }),
        cmds == seq![Command::Send(Msg::ScrollToTop), Command::Send(Msg::UpdatePageTitle)],
{
    let k = choose|k: int| first_with_slug(m.guides, slug@, k);
    assert(k == i);
}

} // verus!
