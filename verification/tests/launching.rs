use cosmic_launcher::backend::GpuPreference;
use cosmic_launcher::cli::{Args, LauncherCommands};
use cosmic_launcher::launch::{choose_gpu, launch_environment, try_get_gpu_envs, Gpu};

fn gpu(name: &str, default: bool) -> Gpu {
    Gpu {
        name: name.to_string(),
        environment: vec![("GPU".to_string(), name.to_string())],
        default,
    }
}

fn pair(name: &str, value: &str) -> (String, String) {
    (name.to_string(), value.to_string())
}

#[test]
fn the_first_adapter_of_the_kind_asked_for_is_chosen() {
    let gpus = vec![gpu("a", false), gpu("b", true), gpu("c", false), gpu("d", true)];
    assert_eq!(choose_gpu(GpuPreference::Default, &gpus), Some(1));
    assert_eq!(choose_gpu(GpuPreference::NonDefault, &gpus), Some(0));
    assert_eq!(choose_gpu(GpuPreference::SpecificIdx(2), &gpus), Some(2));
    assert_eq!(choose_gpu(GpuPreference::SpecificIdx(3), &gpus), Some(3));
    assert_eq!(choose_gpu(GpuPreference::SpecificIdx(4), &gpus), None);
}

#[test]
fn no_adapter_of_the_kind_asked_for() {
    let only_default = vec![gpu("a", true)];
    assert_eq!(choose_gpu(GpuPreference::NonDefault, &only_default), None);
    let no_default = vec![gpu("a", false), gpu("b", false)];
    assert_eq!(choose_gpu(GpuPreference::Default, &no_default), None);
    let none: Vec<Gpu> = Vec::new();
    assert_eq!(choose_gpu(GpuPreference::Default, &none), None);
    assert_eq!(choose_gpu(GpuPreference::NonDefault, &none), None);
    assert_eq!(choose_gpu(GpuPreference::SpecificIdx(0), &none), None);
}

#[test]
fn the_environment_of_the_chosen_adapter() {
    let gpus = || vec![gpu("a", true), gpu("b", false), gpu("c", false)];
    assert_eq!(try_get_gpu_envs(GpuPreference::Default, gpus()), Some(vec![pair("GPU", "a")]));
    assert_eq!(try_get_gpu_envs(GpuPreference::NonDefault, gpus()), Some(vec![pair("GPU", "b")]));
    assert_eq!(
        try_get_gpu_envs(GpuPreference::SpecificIdx(2), gpus()),
        Some(vec![pair("GPU", "c")])
    );
    assert_eq!(try_get_gpu_envs(GpuPreference::SpecificIdx(3), gpus()), None);
}

#[test]
fn the_token_reaches_the_application_under_two_names() {
    assert_eq!(
        launch_environment(Some("tok".to_string()), None),
        vec![pair("XDG_ACTIVATION_TOKEN", "tok"), pair("DESKTOP_STARTUP_ID", "tok")]
    );
    assert_eq!(
        launch_environment(Some("tok".to_string()), Some(vec![pair("DRI_PRIME", "1")])),
        vec![
            pair("XDG_ACTIVATION_TOKEN", "tok"),
            pair("DESKTOP_STARTUP_ID", "tok"),
            pair("DRI_PRIME", "1"),
        ]
    );
    assert_eq!(
        launch_environment(None, Some(vec![pair("DRI_PRIME", "1")])),
        vec![pair("DRI_PRIME", "1")]
    );
    assert!(launch_environment(None, None).is_empty());
}

#[test]
fn the_action_of_the_arguments() {
    let none = Args { subcommand: None };
    assert_eq!(none.action(), None);
    let cycle = Args { subcommand: Some(LauncherCommands::ShiftAltTab) };
    assert_eq!(cycle.action(), Some(&LauncherCommands::ShiftAltTab));
}
