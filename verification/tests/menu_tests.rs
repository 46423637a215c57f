use yt::menu::Menu;

#[test]
fn next_cycles_through_three_tabs() {
    assert_eq!(Menu::Home.next(), Menu::Recent);
    assert_eq!(Menu::Recent.next(), Menu::Channels);
    assert_eq!(Menu::Channels.next(), Menu::Home);
    assert_eq!(Menu::History.next(), Menu::Home);
    assert_eq!(Menu::WatchList.next(), Menu::Home);
    assert_eq!(Menu::ChannelVideos.next(), Menu::Home);
    assert_eq!(Menu::Home.next().next().next(), Menu::Home);
}

#[test]
fn get_maps_keys_to_tabs() {
    assert_eq!(Menu::get('h'), Some(Menu::Home));
    assert_eq!(Menu::get('r'), Some(Menu::Recent));
    assert_eq!(Menu::get('c'), Some(Menu::Channels));
    assert_eq!(Menu::get('p'), Some(Menu::History));
    assert_eq!(Menu::get('o'), Some(Menu::WatchList));
    assert_eq!(Menu::get('x'), None);
    assert_eq!(Menu::get('H'), None);
}

#[test]
fn as_num_positions() {
    assert_eq!(Menu::Home.as_num(), 0);
    assert_eq!(Menu::Recent.as_num(), 1);
    assert_eq!(Menu::Channels.as_num(), 2);
    assert_eq!(Menu::History.as_num(), 3);
    assert_eq!(Menu::WatchList.as_num(), 4);
    assert_eq!(Menu::ChannelVideos.as_num(), 5);
}
