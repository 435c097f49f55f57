use glulx::io::{DefaultManager, Filter, Null, Selected, Subsystem, SubsystemManager};

#[test]
fn default_manager_selects_nothing() {
    let manager = DefaultManager::default();
    assert_eq!(manager.get_io_subsystem(), (0, 0));
    assert_eq!(manager.active(), Selected::Null(Null));
}

#[test]
fn manager_offers_null_and_filter() {
    let mut manager = DefaultManager::default();
    assert_eq!(manager.gestalt_io_subsystem(0), 1);
    assert_eq!(manager.gestalt_io_subsystem(1), 1);
    assert_eq!(manager.gestalt_io_subsystem(2), 0);
    assert_eq!(manager.gestalt_io_subsystem(0x20), 0);
    manager.set_io_subsystem(1, 0x1234);
    assert_eq!(manager.get_io_subsystem(), (1, 0x1234));
    assert_eq!(manager.active(), Selected::Filter(Filter::new(0x1234)));
    manager.tick();
    manager.quit();
    assert_eq!(manager.get_io_subsystem(), (1, 0x1234));
    manager.set_io_subsystem(0, 7);
    assert_eq!(manager.get_io_subsystem(), (0, 7));
    assert_eq!(manager.active(), Selected::Null(Null));
}

#[test]
fn filter_keeps_its_rock() {
    let mut filter = Filter::new(9);
    assert_eq!(filter.rock, 9);
    filter.tick();
    filter.quit();
    assert_eq!(filter.rock, 9);
    assert_eq!(Filter::default().rock, 0);
    let mut null = Null::default();
    null.tick();
    null.quit();
    assert_eq!(null, Null);
}
