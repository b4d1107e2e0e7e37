use vstd::prelude::*;

verus! {

/// Number of pages of the wizard.
pub const PAGE_COUNT: usize = 8;

/// The pages of the setup wizard, in the order they are shown.
#[derive(Clone, Copy, Debug, PartialEq, Eq, Structural)]
pub enum Page {
    Welcome,
    ResetSettings,
    HardwareRequirements,
    SoftwareRequirements,
    HandGestures,
    Firewall,
    Recommendations,
    Finished,
}

/// Position of a page in the wizard, from zero.
pub open spec fn page_index(page: Page) -> nat {
    match page {
        Page::Welcome => 0,
        Page::ResetSettings => 1,
        Page::HardwareRequirements => 2,
        Page::SoftwareRequirements => 3,
        Page::HandGestures => 4,
        Page::Firewall => 5,
        Page::Recommendations => 6,
        Page::Finished => 7,
    }
}

/// The page at position `index`.
pub fn index_to_page(index: usize) -> (r: Page)
    requires
        index < PAGE_COUNT,
    ensures
        page_index(r) == index,
{
    match index {
        0 => Page::Welcome,
        1 => Page::ResetSettings,
        2 => Page::HardwareRequirements,
        3 => Page::SoftwareRequirements,
        4 => Page::HandGestures,
        5 => Page::Firewall,
        6 => Page::Recommendations,
        _ => Page::Finished,
    }
}

/// The position of `page`.
pub fn page_to_index(page: Page) -> (r: usize)
    ensures
        r == page_index(page),
        r < PAGE_COUNT,
{
    match page {
        Page::Welcome => 0,
        Page::ResetSettings => 1,
        Page::HardwareRequirements => 2,
        Page::SoftwareRequirements => 3,
        Page::HandGestures => 4,
        Page::Firewall => 5,
        Page::Recommendations => 6,
        Page::Finished => 7,
    }
}

/// What the wizard asks of the server or of the dashboard.
#[derive(Clone, Copy, Debug, PartialEq, Eq, Structural)]
pub enum SetupWizardRequest {
    /// Replace the session settings with the defaults.
    ResetSettings,
    /// Set whether hand gestures only emulate touch, not clicks.
    SetOnlyTouch(bool),
    /// Add the firewall rules that streaming needs.
    AddFirewallRules,
    /// Close the wizard; `finished` when it was gone through to the end.
    Close { finished: bool },
}

/// A user action on the wizard.
#[derive(Clone, Copy, Debug, PartialEq, Eq, Structural)]
pub enum WizardEvent {
    /// The close button in the title bar.
    CloseClicked,
    /// The reset button of the settings page.
    ResetClicked,
    /// The only-touch switch of the hand gestures page, with its new value.
    OnlyTouchSwitched(bool),
    /// The firewall button of the firewall page.
    FirewallClicked,
    /// The finish button of the last page.
    FinishClicked,
    /// The next button of every page but the last.
    NextClicked,
    /// The back button of every page but the first.
    BackClicked,
}

/// The first-run setup wizard: which page is shown, and the state of its
/// only-touch switch.
pub struct SetupWizard {
    page: Page,
    only_touch: bool,
}

/// The wizard's state as values: the page shown and the only-touch switch.
pub struct WizardState {
    pub page: Page,
    pub only_touch: bool,
}

impl View for SetupWizard {
    type V = WizardState;

    closed spec fn view(&self) -> WizardState {
        WizardState { page: self.page, only_touch: self.only_touch }
    }
}

/// The page at position `index`; the first page before it and the last
/// after it.
pub open spec fn page_at(index: int) -> Page {
    if index <= 0 {
        Page::Welcome
    } else if index == 1 {
        Page::ResetSettings
    } else if index == 2 {
        Page::HardwareRequirements
    } else if index == 3 {
        Page::SoftwareRequirements
    } else if index == 4 {
        Page::HandGestures
    } else if index == 5 {
        Page::Firewall
    } else if index == 6 {
        Page::Recommendations
    } else {
        Page::Finished
    }
}

/// The state after `event` in state `s`.
pub open spec fn wizard_step(s: WizardState, event: WizardEvent) -> WizardState {
    match event {
        WizardEvent::OnlyTouchSwitched(v) if s.page == Page::HandGestures => WizardState {
            only_touch: v,
            ..s
        },
        WizardEvent::NextClicked if s.page != Page::Finished => WizardState {
            page: page_at(page_index(s.page) as int + 1),
            ..s
        },
        WizardEvent::BackClicked if s.page != Page::Welcome => WizardState {
            page: page_at(page_index(s.page) as int - 1),
            ..s
        },
        _ => s,
    }
}

/// The request that `event` makes in state `s`, if any.
pub open spec fn wizard_request(s: WizardState, event: WizardEvent) -> Option<SetupWizardRequest> {
    match event {
        WizardEvent::CloseClicked => Some(SetupWizardRequest::Close { finished: false }),
        WizardEvent::ResetClicked if s.page == Page::ResetSettings => Some(
            SetupWizardRequest::ResetSettings,
        ),
        WizardEvent::OnlyTouchSwitched(v) if s.page == Page::HandGestures => Some(
            SetupWizardRequest::SetOnlyTouch(v),
        ),
        WizardEvent::FirewallClicked if s.page == Page::Firewall => Some(
            SetupWizardRequest::AddFirewallRules,
        ),
        WizardEvent::FinishClicked if s.page == Page::Finished => Some(
            SetupWizardRequest::Close { finished: true },
        ),
        _ => None,
    }
}

impl SetupWizard {
    /// A wizard on its welcome page, with gestures limited to touch.
    pub fn new() -> (r: SetupWizard)
        ensures
            r@ == (WizardState { page: Page::Welcome, only_touch: true }),
    {
        SetupWizard { page: Page::Welcome, only_touch: true }
    }

    pub fn page(&self) -> (r: Page)
        ensures
            r == self@.page,
    {
        self.page
    }

    pub fn only_touch(&self) -> (r: bool)
        ensures
            r == self@.only_touch,
    {
        self.only_touch
    }

    /// Applies one user action. An action of a control that the shown page
    /// does not have changes nothing and requests nothing.
    pub fn handle_event(&mut self, event: WizardEvent) -> (r: Option<SetupWizardRequest>)
        ensures
            final(self)@ == wizard_step(old(self)@, event),
            r == wizard_request(old(self)@, event),
    {
        match event {
            WizardEvent::CloseClicked => Some(SetupWizardRequest::Close { finished: false }),
            WizardEvent::ResetClicked => {
                if self.page == Page::ResetSettings {
                    Some(SetupWizardRequest::ResetSettings)
                } else {
                    None
                }
            },
            WizardEvent::OnlyTouchSwitched(v) => {
                if self.page == Page::HandGestures {
                    self.only_touch = v;
                    Some(SetupWizardRequest::SetOnlyTouch(v))
                } else {
                    None
                }
            },
            WizardEvent::FirewallClicked => {
                if self.page == Page::Firewall {
                    Some(SetupWizardRequest::AddFirewallRules)
                } else {
                    None
                }
            },
            WizardEvent::FinishClicked => {
                if self.page == Page::Finished {
                    Some(SetupWizardRequest::Close { finished: true })
                } else {
                    None
                }
            },
            WizardEvent::NextClicked => {
                if self.page != Page::Finished {
                    self.page = index_to_page(page_to_index(self.page) + 1);
                }
                None
            },
            WizardEvent::BackClicked => {
                if self.page != Page::Welcome {
                    self.page = index_to_page(page_to_index(self.page) - 1);
                }
                None
            },
        }
    }
}

} // verus!
