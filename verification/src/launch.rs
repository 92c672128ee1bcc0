//! What a launched application is started with: the environment that carries
//! its activation token, and that of the graphics adapter chosen for it.

use vstd::prelude::*;

use crate::backend::GpuPreference;
use crate::message::text_of;

verus! {

/// A graphics adapter, as the system's switching service lists it.
#[derive(Clone, Debug, PartialEq, Eq)]
pub struct Gpu {
    /// The adapter's name.
    pub name: String,
    /// The environment that starts an application on this adapter.
    pub environment: Vec<(String, String)>,
    /// Whether the system marks this adapter as its default.
    pub default: bool,
}

/// Whether the adapter at `at` is the one that `preference` asks for: the
/// first default one, the first that is not the default, or the one at the
/// position named.
pub open spec fn is_choice(preference: GpuPreference, gpus: Seq<Gpu>, at: int) -> bool {
    &&& 0 <= at < gpus.len()
    &&& match preference {
        GpuPreference::Default => gpus[at].default && forall|j: int|
            0 <= j < at ==> !(#[trigger] gpus[j]).default,
        GpuPreference::NonDefault => !gpus[at].default && forall|j: int|
            0 <= j < at ==> (#[trigger] gpus[j]).default,
        GpuPreference::SpecificIdx(index) => at == index,
    }
}

/// Picks the adapter that `preference` asks for out of the system's list, if
/// the list holds one.
pub fn choose_gpu(preference: GpuPreference, gpus: &Vec<Gpu>) -> (choice: Option<usize>)
    ensures
        match choice {
            Some(at) => is_choice(preference, gpus@, at as int),
            None => forall|at: int| !is_choice(preference, gpus@, at),
        },
{
    match preference {
        GpuPreference::SpecificIdx(index) => {
            if (index as usize) < gpus.len() {
                Some(index as usize)
            } else {
                None
            }
        },
        _ => {
            let wanted = match preference {
                GpuPreference::NonDefault => false,
                _ => true,
            };
            let mut at: usize = 0;
            while at < gpus.len()
                invariant
                    at <= gpus.len(),
                    preference is Default || preference is NonDefault,
                    wanted == (preference is Default),
                    forall|j: int| 0 <= j < at ==> (#[trigger] gpus@[j]).default != wanted,
                decreases gpus.len() - at,
            {
                if gpus[at].default == wanted {
                    return Some(at);
                }
                at += 1;
            }
            assert forall|at: int| !is_choice(preference, gpus@, at) by {
                if 0 <= at < gpus@.len() {
                    assert(gpus@[at].default != wanted);
                }
            }
            None
        },
    }
}

/// The environment of the adapter that `preference` asks for, if the system
/// lists one.
pub fn try_get_gpu_envs(preference: GpuPreference, gpus: Vec<Gpu>) -> (environment: Option<
    Vec<(String, String)>,
>)
    ensures
        match environment {
            Some(environment) => exists|at: int|
                is_choice(preference, gpus@, at) && gpus@[at].environment == environment,
            None => forall|at: int| !is_choice(preference, gpus@, at),
        },
{
    let mut gpus = gpus;
    match choose_gpu(preference, &gpus) {
        Some(at) => {
            let gpu = gpus.swap_remove(at);
            Some(gpu.environment)
        },
        None => None,
    }
}

/// An environment, each variable by its name and value as text.
pub open spec fn environment_view(environment: Seq<(String, String)>) -> Seq<(Seq<char>, Seq<char>)> {
    environment.map_values(|variable: (String, String)| (variable.0@, variable.1@))
}

/// The two variables through which an activation token reaches the
/// application that is started; none without a token.
pub open spec fn token_environment(token: Option<Seq<char>>) -> Seq<(Seq<char>, Seq<char>)> {
    match token {
        Some(token) => seq![
            ("XDG_ACTIVATION_TOKEN"@, token),
            ("DESKTOP_STARTUP_ID"@, token),
        ],
        None => Seq::empty(),
    }
}

/// The environment to start an application with: the token's variables,
/// followed by those of the graphics adapter where one was chosen.
pub fn launch_environment(token: Option<String>, gpu_environment: Option<Vec<(String, String)>>) -> (environment:
    Vec<(String, String)>)
    ensures
        environment_view(environment@) == token_environment(text_of(token)) + match gpu_environment {
            Some(variables) => environment_view(variables@),
            None => Seq::empty(),
        },
{
    let mut environment: Vec<(String, String)> = Vec::new();
    if let Some(token) = token {
        environment.push(("XDG_ACTIVATION_TOKEN".to_owned(), token.clone()));
        environment.push(("DESKTOP_STARTUP_ID".to_owned(), token));
    }
    let ghost with_token = environment@;
    assert(environment_view(with_token) =~= token_environment(text_of(token)));
    if let Some(variables) = gpu_environment {
        let mut variables = variables;
        environment.append(&mut variables);
    }
    assert(environment_view(environment@) =~= environment_view(with_token) + match gpu_environment {
        Some(variables) => environment_view(variables@),
        None => Seq::empty(),
    });
    environment
}

} // verus!
