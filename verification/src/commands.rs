use vstd::prelude::*;

verus! {

/// What the application says about itself; built fresh on each request.
pub struct AppInfo {
    pub name: String,
    pub version: String,
    pub description: String,
}

/// Host facts reported to the presentation layer; the memory field is a
/// fixed placeholder until a real probe exists.
pub struct SystemInfo {
    pub os: String,
    pub arch: String,
    pub memory: String,
}

/// Describes the application. Never fails; every field is a fixed value.
pub fn get_app_info() -> (r: Result<AppInfo, String>)
    ensures
        r matches Ok(info) && info.name@ == "智股通"@ && info.version@ == "0.1.0"@
            && info.description@ == "基于AI的桌面投资研究平台"@,
{
    Ok(
        AppInfo {
            name: String::from_str("智股通"),
            version: String::from_str("0.1.0"),
            description: String::from_str("基于AI的桌面投资研究平台"),
        },
    )
}

/// Reports the host facts handed in by the shell. Never fails; the OS and
/// architecture are returned as given and the memory field is the fixed
/// placeholder.
pub fn get_system_info(os: String, arch: String) -> (r: Result<SystemInfo, String>)
    ensures
        r matches Ok(si) && si.os@ == os@ && si.arch@ == arch@ && si.memory@ == "Unknown"@,
{
    Ok(SystemInfo { os, arch, memory: String::from_str("Unknown") })
}

/// The update check is a reserved stub: it always reports that no update is
/// available, and never fails.
pub fn check_for_updates() -> (r: Result<bool, String>)
    ensures
        r == Result::<bool, String>::Ok(false),
{
    Ok(false)
}

/// The notification operation is a reserved stub: it accepts any title and
/// body, displays nothing yet, and always succeeds.
#[allow(unused_variables)]
pub fn show_notification(title: String, body: String) -> (r: Result<(), String>)
    ensures
        r == Result::<(), String>::Ok(()),
{
    Ok(())
}

/// Reduces an attempt to open a URL to the bridge's result: success exactly
/// when the host accepted the spawn; a refusal carries the OS error text.
pub fn open_url_outcome(spawn_error: Option<String>) -> (r: Result<(), String>)
    ensures
        spawn_error is None ==> r == Result::<(), String>::Ok(()),
        spawn_error matches Some(e) ==> (r matches Err(m) && m@ == "Failed to open URL: "@ + e@),
        r matches Err(m) ==> m@.len() > 0,
{
    match spawn_error {
        None => Ok(()),
        Some(e) => {
            proof {
                reveal_strlit("Failed to open URL: ");
            }
            let mut m = String::from_str("Failed to open URL: ");
            m.append(e.as_str());
            Err(m)
        },
    }
}

/// Reduces a single-invocation reveal-in-folder attempt to the bridge's
/// result: success exactly when the host accepted the spawn; a refusal
/// carries the OS error text.
pub fn show_in_folder_outcome(spawn_error: Option<String>) -> (r: Result<(), String>)
    ensures
        spawn_error is None ==> r == Result::<(), String>::Ok(()),
        spawn_error matches Some(e) ==> (r matches Err(m) && m@ == "Failed to show in folder: "@
            + e@),
        r matches Err(m) ==> m@.len() > 0,
{
    match spawn_error {
        None => Ok(()),
        Some(e) => {
            proof {
                reveal_strlit("Failed to show in folder: ");
            }
            let mut m = String::from_str("Failed to show in folder: ");
            m.append(e.as_str());
            Err(m)
        },
    }
}

/// Reduces the host's answer to a minimize request to the bridge's result:
/// success when the window minimized, otherwise a failure carrying the
/// host's error text.
pub fn minimize_to_tray(minimize_error: Option<String>) -> (r: Result<(), String>)
    ensures
        minimize_error is None ==> r == Result::<(), String>::Ok(()),
        minimize_error matches Some(e) ==> (r matches Err(m) && m@
            == "Failed to minimize window: "@ + e@),
        r matches Err(m) ==> m@.len() > 0,
{
    match minimize_error {
        None => Ok(()),
        Some(e) => {
            proof {
                reveal_strlit("Failed to minimize window: ");
            }
            let mut m = String::from_str("Failed to minimize window: ");
            m.append(e.as_str());
            Err(m)
        },
    }
}

} // verus!
