use desert_shooter_engine::hot_reload::ScriptWatcher;

#[test]
fn watch_and_unwatch() {
    let mut w = ScriptWatcher::default();
    w.watch("scripts/a.lua".to_string(), 10);
    w.watch("scripts/b.lua".to_string(), 20);
    w.watch("scripts/a.lua".to_string(), 15);
    assert_eq!(w.paths(), vec!["scripts/a.lua".to_string(), "scripts/b.lua".to_string()]);
    w.unwatch("scripts/a.lua");
    assert_eq!(w.paths(), vec!["scripts/b.lua".to_string()]);
    w.unwatch("scripts/missing.lua");
    assert_eq!(w.paths(), vec!["scripts/b.lua".to_string()]);
}

#[test]
fn poll_reports_changed_files_once() {
    let mut w = ScriptWatcher::new();
    w.watch("a.lua".to_string(), 10);
    w.watch("b.lua".to_string(), 20);
    w.watch("c.lua".to_string(), 30);
    let observed = [Some(11), Some(20), None];
    assert_eq!(w.poll_changed(&observed), vec!["a.lua".to_string()]);
    assert!(w.poll_changed(&observed).is_empty());
    let later = [Some(11), Some(25), Some(31)];
    assert_eq!(w.poll_changed(&later), vec!["b.lua".to_string(), "c.lua".to_string()]);
    // an older time is a change too (the file was replaced by an older copy)
    assert_eq!(
        w.poll_changed(&[Some(5), Some(25), None]),
        vec!["a.lua".to_string()]
    );
    assert!(w.poll_changed(&[Some(5), Some(25), Some(31)]).is_empty());
}

#[test]
fn poll_reports_each_path_once() {
    let mut w = ScriptWatcher::new();
    w.watch("a.lua".to_string(), 1);
    w.watch("b.lua".to_string(), 1);
    w.watch("a.lua".to_string(), 2);
    assert_eq!(w.paths(), vec!["a.lua".to_string(), "b.lua".to_string()]);
    let changed = w.poll_changed(&[Some(3), Some(4)]);
    assert_eq!(changed, vec!["a.lua".to_string(), "b.lua".to_string()]);
}
