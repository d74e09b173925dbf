//! Names and numbers that Steam and the game fix.

use vstd::prelude::*;

verus! {

/// Steam's application id of Arma 3.
pub const ARMA3_APP_ID: u32 = 107410;

/// Steam's application id of Arma 3, as text.
pub const ARMA3_APP_ID_STR: &'static str = "107410";

/// The name of the game's directory under `steamapps/common`.
pub const ARMA3_STEAM_GAME_DIR_NAME: &'static str = "Arma 3";

/// Steam's argument that launches an application by id.
pub const STEAM_ARG_APPLAUNCH: &'static str = "-applaunch";

/// The game's argument that suppresses its own launcher.
pub const STEAM_ARG_NO_LAUNCHER: &'static str = "-nolauncher";

/// The variable that names the application to Proton.
pub const ENV_STEAM_GAME_ID: &'static str = "SteamGameId";

/// The variable that names the application's compatibility data.
pub const ENV_STEAM_COMPAT_DATA_PATH: &'static str = "STEAM_COMPAT_DATA_PATH";

/// The variable that switches off Proton's esync.
pub const ENV_PROTON_NO_ESYNC: &'static str = "PROTON_NO_ESYNC";

/// The settings file's place inside the application's compatibility data.
pub const PROTON_ARMA3_CFG_REL: &'static str =
    "pfx/drive_c/users/steamuser/My Documents/Arma 3/Arma3.cfg";

/// The declaration of the block that this library owns in the settings
/// file.
pub const MOD_LIST_DECL: &'static str = "class ModLauncherList";

} // verus!
