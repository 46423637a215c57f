use vstd::prelude::*;

verus! {

/// The tabs of the interface.
#[derive(PartialEq, Eq, Structural, Clone, Copy, Debug)]
pub enum Menu {
    Home,
    Recent,
    Channels,
    ChannelVideos,
    History,
    WatchList,
}

/// The tab that the tab key moves to.
pub open spec fn spec_next(m: Menu) -> Menu {
    match m {
        Menu::Home => Menu::Recent,
        Menu::Recent => Menu::Channels,
        _ => Menu::Home,
    }
}

/// The tab that a key selects directly, if any.
pub open spec fn spec_get(c: char) -> Option<Menu> {
    if c == 'h' {
        Some(Menu::Home)
    } else if c == 'r' {
        Some(Menu::Recent)
    } else if c == 'c' {
        Some(Menu::Channels)
    } else if c == 'p' {
        Some(Menu::History)
    } else if c == 'o' {
        Some(Menu::WatchList)
    } else {
        None
    }
}

/// The position of a tab in the menu bar.
pub open spec fn spec_as_num(m: Menu) -> nat {
    match m {
        Menu::Home => 0,
        Menu::Recent => 1,
        Menu::Channels => 2,
        Menu::History => 3,
        Menu::ChannelVideos => 5,
        Menu::WatchList => 4,
    }
}

impl Menu {
    pub fn next(&self) -> (r: Self)
        ensures
            r == spec_next(*self),
    {
        match self {
            Menu::Home => Menu::Recent,
            Menu::Recent => Menu::Channels,
            _ => Menu::Home,
        }
    }

    pub fn get(c: char) -> (r: Option<Self>)
        ensures
            r == spec_get(c),
            r is Some <==> (c == 'h' || c == 'r' || c == 'c' || c == 'p' || c == 'o'),
            c == 'h' ==> r == Some(Menu::Home),
            c == 'r' ==> r == Some(Menu::Recent),
            c == 'c' ==> r == Some(Menu::Channels),
            c == 'p' ==> r == Some(Menu::History),
            c == 'o' ==> r == Some(Menu::WatchList),
    {
        match c {
            'h' => Some(Menu::Home),
            'r' => Some(Menu::Recent),
            'c' => Some(Menu::Channels),
            'p' => Some(Menu::History),
            'o' => Some(Menu::WatchList),
            _ => None,
        }
    }

    pub fn as_num(&self) -> (r: usize)
        ensures
            r as nat == spec_as_num(*self),
    {
        match self {
            Menu::Home => 0,
            Menu::Recent => 1,
            Menu::Channels => 2,
            Menu::History => 3,
            Menu::ChannelVideos => 5,
            Menu::WatchList => 4,
        }
    }
}

/// Cycling with the tab key: from any tab, three presses come back to where
/// they started once the cycle Home, Recent, Channels is entered, and every
/// tab reaches Home within one press or lies on that cycle.
pub proof fn lemma_next_cycles(m: Menu)
    ensures
        spec_next(spec_next(spec_next(spec_next(m)))) == spec_next(m),
        spec_next(m) == Menu::Home || spec_next(m) == Menu::Recent || spec_next(m) == Menu::Channels,
{
}

/// Distinct tabs sit at distinct positions of the menu bar.
pub proof fn lemma_as_num_injective(a: Menu, b: Menu)
    ensures
        spec_as_num(a) == spec_as_num(b) ==> a == b,
{
}

/// A key that selects a tab selects one of the five titled tabs, whose
/// position lies inside the bar of five titles; the channel-videos tab is
/// reached by no key.
pub proof fn lemma_get_titled(c: char)
    ensures
        spec_get(c) is Some ==> spec_as_num(spec_get(c)->0) < 5,
        spec_get(c) != Some(Menu::ChannelVideos),
{
}


/// Only the keys `h`, `r`, `c`, `p` and `o` select a tab, each its own:
/// Home, Recent, Channels, History and the watch-later list; every other
/// key (the digits among them) selects none.
pub proof fn lemma_get_keys(c: char)
    ensures
        spec_get(c) is Some <==> (c == 'h' || c == 'r' || c == 'c' || c == 'p' || c == 'o'),
        spec_get('h') == Some(Menu::Home),
        spec_get('r') == Some(Menu::Recent),
        spec_get('c') == Some(Menu::Channels),
        spec_get('p') == Some(Menu::History),
        spec_get('o') == Some(Menu::WatchList),
{
}

} // verus!
