use rsvelte_profile::corpus::{split_args, walk_step, WalkStep};

fn args(list: &[&str]) -> Vec<String> {
    list.iter().map(|s| s.to_string()).collect()
}

#[test]
fn directories_are_walked_but_for_installed_packages() {
    assert_eq!(walk_step(true, Some("src"), None), WalkStep::Descend);
    assert_eq!(walk_step(true, Some("node_modules"), None), WalkStep::Skip);
    assert_eq!(walk_step(true, None, None), WalkStep::Descend);
    assert_eq!(walk_step(true, Some("lib.svelte"), Some("svelte")), WalkStep::Descend);
}

#[test]
fn files_are_taken_by_their_extension() {
    assert_eq!(walk_step(false, Some("App.svelte"), Some("svelte")), WalkStep::Take);
    assert_eq!(walk_step(false, Some("app.js"), Some("js")), WalkStep::Skip);
    assert_eq!(walk_step(false, Some("svelte"), None), WalkStep::Skip);
    assert_eq!(walk_step(false, Some("node_modules"), None), WalkStep::Skip);
}

#[test]
fn the_flag_may_stand_anywhere() {
    assert_eq!(split_args(&args(&[])), (false, args(&[])));
    assert_eq!(split_args(&args(&["a", "b"])), (false, args(&["a", "b"])));
    assert_eq!(split_args(&args(&["a", "--hash", "b"])), (true, args(&["a", "b"])));
    assert_eq!(split_args(&args(&["--hash", "--hash"])), (true, args(&[])));
}
