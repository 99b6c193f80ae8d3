use vstd::prelude::*;

verus! {

/// The screens of the dashboard, in the order in which they are shown.
#[derive(Clone, Copy, Debug, PartialEq, Eq, Structural)]
pub enum SelectedTab {
    Start,
    Services,
    Network,
    Pdf,
    Crypt,
}

pub open spec fn tab_index(t: SelectedTab) -> nat {
    match t {
        SelectedTab::Start => 0,
        SelectedTab::Services => 1,
        SelectedTab::Network => 2,
        SelectedTab::Pdf => 3,
        SelectedTab::Crypt => 4,
    }
}

impl SelectedTab {
    /// Number of tabs.
    pub open spec fn count() -> nat {
        5
    }

    /// Position of the tab, counting from zero.
    pub fn index(self) -> (r: usize)
        ensures
            r == tab_index(self),
    {
        match self {
            SelectedTab::Start => 0,
            SelectedTab::Services => 1,
            SelectedTab::Network => 2,
            SelectedTab::Pdf => 3,
            SelectedTab::Crypt => 4,
        }
    }

    /// The tab at position `i`, if there is one.
    pub fn from_repr(i: usize) -> (r: Option<SelectedTab>)
        ensures
            i < Self::count() <==> r is Some,
            r matches Some(t) ==> tab_index(t) == i,
    {
        if i == 0 {
            Some(SelectedTab::Start)
        } else if i == 1 {
            Some(SelectedTab::Services)
        } else if i == 2 {
            Some(SelectedTab::Network)
        } else if i == 3 {
            Some(SelectedTab::Pdf)
        } else if i == 4 {
            Some(SelectedTab::Crypt)
        } else {
            None
        }
    }

    /// The tab to the left, or this one when it is already the first.
    pub fn previous(self) -> (r: SelectedTab)
        ensures
            tab_index(self) == 0 ==> r == self,
            tab_index(self) > 0 ==> tab_index(r) == tab_index(self) - 1,
    {
        let current: usize = self.index();
        let target: usize = current.saturating_sub(1);
        match SelectedTab::from_repr(target) {
            Some(t) => t,
            None => self,
        }
    }

    /// The tab to the right, or this one when it is already the last.
    pub fn next(self) -> (r: SelectedTab)
        ensures
            tab_index(self) + 1 == Self::count() ==> r == self,
            tab_index(self) + 1 < Self::count() ==> tab_index(r) == tab_index(self) + 1,
    {
        let current: usize = self.index();
        let target: usize = current.saturating_add(1);
        match SelectedTab::from_repr(target) {
            Some(t) => t,
            None => self,
        }
    }

    /// The caption shown for the tab in the header.
    pub fn caption(self) -> (r: &'static str)
        ensures
            r@ == tab_caption(self),
    {
        match self {
            SelectedTab::Start => "0. Start",
            SelectedTab::Services => "1. Services",
            SelectedTab::Network => "2. Network",
            SelectedTab::Pdf => "3. PDF",
            SelectedTab::Crypt => "4. Crypt",
        }
    }
}

pub open spec fn tab_caption(t: SelectedTab) -> Seq<char> {
    match t {
        SelectedTab::Start => "0. Start"@,
        SelectedTab::Services => "1. Services"@,
        SelectedTab::Network => "2. Network"@,
        SelectedTab::Pdf => "3. PDF"@,
        SelectedTab::Crypt => "4. Crypt"@,
    }
}

/// Whether the dashboard keeps running.
#[derive(Clone, Copy, Debug, PartialEq, Eq, Structural)]
pub enum AppState {
    Running,
    Quitting,
}

/// State of the dashboard: which tab is shown and whether it is quitting.
pub struct App {
    pub state: AppState,
    pub selected_tab: SelectedTab,
}

impl App {
    /// A running dashboard on the first tab.
    pub fn new() -> (r: App)
        ensures
            r.state == AppState::Running,
            r.selected_tab == SelectedTab::Start,
    {
        App { state: AppState::Running, selected_tab: SelectedTab::Start }
    }

    pub fn is_running(&self) -> (r: bool)
        ensures
            r == (self.state == AppState::Running),
    {
        match self.state {
            AppState::Running => true,
            AppState::Quitting => false,
        }
    }

    pub fn next_tab(&mut self)
        ensures
            tab_index(old(self).selected_tab) + 1 == SelectedTab::count()
                ==> final(self).selected_tab == old(self).selected_tab,
            tab_index(old(self).selected_tab) + 1 < SelectedTab::count()
                ==> tab_index(final(self).selected_tab) == tab_index(old(self).selected_tab) + 1,
            final(self).state == old(self).state,
    {
        self.selected_tab = self.selected_tab.next();
    }

    pub fn previous_tab(&mut self)
        ensures
            tab_index(old(self).selected_tab) == 0 ==> final(self).selected_tab == old(
                self,
            ).selected_tab,
            tab_index(old(self).selected_tab) > 0 ==> tab_index(final(self).selected_tab)
                == tab_index(old(self).selected_tab) - 1,
            final(self).state == old(self).state,
    {
        self.selected_tab = self.selected_tab.previous();
    }

    pub fn start(&mut self)
        ensures
            final(self).selected_tab == SelectedTab::Start,
            final(self).state == old(self).state,
    {
        self.selected_tab = SelectedTab::Start;
    }

    pub fn network(&mut self)
        ensures
            final(self).selected_tab == SelectedTab::Network,
            final(self).state == old(self).state,
    {
        self.selected_tab = SelectedTab::Network;
    }

    pub fn services(&mut self)
        ensures
            final(self).selected_tab == SelectedTab::Services,
            final(self).state == old(self).state,
    {
        self.selected_tab = SelectedTab::Services;
    }

    pub fn pdf(&mut self)
        ensures
            final(self).selected_tab == SelectedTab::Pdf,
            final(self).state == old(self).state,
    {
        self.selected_tab = SelectedTab::Pdf;
    }

    pub fn crypt(&mut self)
        ensures
            final(self).selected_tab == SelectedTab::Crypt,
            final(self).state == old(self).state,
    {
        self.selected_tab = SelectedTab::Crypt;
    }

    pub fn quit(&mut self)
        ensures
            final(self).state == AppState::Quitting,
            final(self).selected_tab == old(self).selected_tab,
    {
        self.state = AppState::Quitting;
    }
}

} // verus!
