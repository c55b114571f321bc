use ultime::component::generate_component;
use ultime::page::generate_page;
use ultime::watch::{should_regenerate, WatchEventKind};

const COUNTER_BODY: &str = "(cx: Scope) -> impl IntoView {
    let (count, set_count) = create_signal(cx, 0);
    let on_click = move |_| set_count.update(|count| *count += 1);

    view! { cx,
        <button type=\"button\" on:click=on_click>
            {count}
        </button>
    }
}";

#[test]
fn component_generate_new_leptos_component() {
    let (file_name, content) = generate_component("my-component");

    assert_eq!(file_name, "my_component.rs");
    assert_eq!(
        content,
        format!("use leptos::*;\n\n#[component]\npub fn MyComponent{}", COUNTER_BODY)
    );
}

#[test]
fn page_generate_new_leptos_component() {
    let (file_name, content) = generate_page("home");

    assert_eq!(file_name, "home.rs");
    assert_eq!(
        content,
        format!("use leptos::*;\n\n#[component]\npub fn HomePage{}", COUNTER_BODY)
    );
}

#[test]
fn only_completed_writes_trigger_regeneration() {
    assert!(should_regenerate(&WatchEventKind::AccessCloseWrite));
    assert!(!should_regenerate(&WatchEventKind::OtherEvent));
}
