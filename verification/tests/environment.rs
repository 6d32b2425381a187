use macro_dsl::MacroDSLEnvironment;

#[test]
fn new_environment_has_one_main_buffer() {
    let environment = MacroDSLEnvironment::new();
    assert_eq!(environment.buffers().len(), 1);
    let main = &environment.buffers()[0];
    assert_eq!(main.name(), "Main Buffer");
    assert_eq!(main.content(), "This is the editor");
    assert!(main.markers().is_empty());
}

#[test]
fn new_environment_has_one_window_on_the_main_buffer() {
    let environment = MacroDSLEnvironment::new();
    assert_eq!(environment.windows().len(), 1);
    let window = &environment.windows()[0];
    assert_eq!(window.buffer_index(), 0);
    assert_eq!(window.marker_index(), 0);
    assert_eq!(window.twin_marker_index(), None);
    assert!((window.buffer_index() as usize) < environment.buffers().len());
}

#[test]
fn new_environment_has_a_macro_buffer() {
    let environment = MacroDSLEnvironment::new();
    let editor = environment.macro_editor();
    assert_eq!(editor.name(), "Macro");
    assert_eq!(editor.content(), "# Your macro gets written here");
    assert!(editor.markers().is_empty());
}

#[test]
fn new_environment_has_no_size_yet() {
    let environment = MacroDSLEnvironment::new();
    assert_eq!(environment.width(), 0);
    assert_eq!(environment.height(), 0);
}

#[test]
fn resize_records_width_and_height() {
    let mut environment = MacroDSLEnvironment::new();
    environment.resize(800, 600);
    assert_eq!(environment.width(), 800);
    assert_eq!(environment.height(), 600);
}

#[test]
fn resize_keeps_buffers_and_windows() {
    let mut environment = MacroDSLEnvironment::new();
    environment.resize(1024, 768);
    assert_eq!(environment.buffers().len(), 1);
    assert_eq!(environment.buffers()[0].name(), "Main Buffer");
    assert_eq!(environment.buffers()[0].content(), "This is the editor");
    assert_eq!(environment.windows().len(), 1);
    assert_eq!(environment.windows()[0].buffer_index(), 0);
    assert_eq!(environment.windows()[0].marker_index(), 0);
    assert_eq!(environment.windows()[0].twin_marker_index(), None);
    assert_eq!(environment.macro_editor().name(), "Macro");
    assert_eq!(environment.macro_editor().content(), "# Your macro gets written here");
}

#[test]
fn last_resize_wins() {
    let mut environment = MacroDSLEnvironment::new();
    environment.resize(800, 600);
    environment.resize(320, 240);
    assert_eq!(environment.width(), 320);
    assert_eq!(environment.height(), 240);
}

#[test]
fn resize_takes_the_largest_and_smallest_sizes() {
    let mut environment = MacroDSLEnvironment::new();
    environment.resize(u32::MAX, 0);
    assert_eq!(environment.width(), u32::MAX);
    assert_eq!(environment.height(), 0);
    environment.resize(0, u32::MAX);
    assert_eq!(environment.width(), 0);
    assert_eq!(environment.height(), u32::MAX);
}

#[test]
fn render_changes_nothing() {
    let mut environment = MacroDSLEnvironment::new();
    environment.resize(640, 480);
    environment.render();
    assert_eq!(environment.width(), 640);
    assert_eq!(environment.height(), 480);
    assert_eq!(environment.buffers().len(), 1);
    assert_eq!(environment.buffers()[0].name(), "Main Buffer");
    assert_eq!(environment.buffers()[0].content(), "This is the editor");
    assert_eq!(environment.windows().len(), 1);
    assert_eq!(environment.windows()[0].buffer_index(), 0);
    assert_eq!(environment.macro_editor().content(), "# Your macro gets written here");
}

#[test]
fn render_twice_changes_nothing() {
    let mut environment = MacroDSLEnvironment::new();
    environment.render();
    environment.render();
    assert_eq!(environment.width(), 0);
    assert_eq!(environment.height(), 0);
    assert_eq!(environment.buffers().len(), 1);
    assert_eq!(environment.windows().len(), 1);
}

#[test]
fn environments_are_independent() {
    let mut first = MacroDSLEnvironment::new();
    let second = MacroDSLEnvironment::new();
    first.resize(10, 20);
    assert_eq!(first.width(), 10);
    assert_eq!(second.width(), 0);
    assert_eq!(second.height(), 0);
}
