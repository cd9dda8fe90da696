//! The entries of the main menu and of the utilities menu, and the entry
//! that each position in a menu stands for.

use vstd::prelude::*;

verus! {

/// An entry of the main menu.
#[derive(Debug, Clone, Copy, PartialEq, Eq, Structural)]
pub enum MenuOption {
    SetIp,
    NetworkWizard,
    ApplyRepo,
    NetworkDiagnostic,
    SystemDebug,
    CheckUpdate,
    SystemUpgrade,
    PackageBackup,
    UtilitiesMenu,
    Exit,
}

/// An entry of the utilities menu.
#[derive(Debug, Clone, Copy, PartialEq, Eq, Structural)]
pub enum UtilitiesMenuOption {
    ConfigureMihomo,
    ConfigureTailscale,
    ConfigureLeigod,
    ConfigureTtyd,
    InstallIpk,
    DeploySslCert,
    ResetPassword,
    SystemReset,
    Back,
}

/// The menus of the tool.
pub struct Menu;

/// The main-menu entry at position `i`; any position past the last is `Exit`.
pub open spec fn main_entry(i: nat) -> MenuOption {
    if i == 0 {
        MenuOption::SetIp
    } else if i == 1 {
        MenuOption::NetworkWizard
    } else if i == 2 {
        MenuOption::ApplyRepo
    } else if i == 3 {
        MenuOption::NetworkDiagnostic
    } else if i == 4 {
        MenuOption::SystemDebug
    } else if i == 5 {
        MenuOption::CheckUpdate
    } else if i == 6 {
        MenuOption::SystemUpgrade
    } else if i == 7 {
        MenuOption::PackageBackup
    } else if i == 8 {
        MenuOption::UtilitiesMenu
    } else {
        MenuOption::Exit
    }
}

/// The utilities-menu entry at position `i`; any position past the last is
/// `Back`.
pub open spec fn utilities_entry(i: nat) -> UtilitiesMenuOption {
    if i == 0 {
        UtilitiesMenuOption::ConfigureMihomo
    } else if i == 1 {
        UtilitiesMenuOption::ConfigureTailscale
    } else if i == 2 {
        UtilitiesMenuOption::ConfigureLeigod
    } else if i == 3 {
        UtilitiesMenuOption::ConfigureTtyd
    } else if i == 4 {
        UtilitiesMenuOption::InstallIpk
    } else if i == 5 {
        UtilitiesMenuOption::DeploySslCert
    } else if i == 6 {
        UtilitiesMenuOption::ResetPassword
    } else if i == 7 {
        UtilitiesMenuOption::SystemReset
    } else {
        UtilitiesMenuOption::Back
    }
}

impl Menu {
    /// The number of entries of the main menu.
    pub fn main_len() -> (n: usize)
        ensures
            n == 10,
    {
        10
    }

    /// The number of entries of the utilities menu.
    pub fn utilities_len() -> (n: usize)
        ensures
            n == 9,
    {
        9
    }

    /// The main-menu entry that the user chose at position `selection`.
    pub fn option_at(selection: usize) -> (o: MenuOption)
        ensures
            o == main_entry(selection as nat),
    {
        match selection {
            0 => MenuOption::SetIp,
            1 => MenuOption::NetworkWizard,
            2 => MenuOption::ApplyRepo,
            3 => MenuOption::NetworkDiagnostic,
            4 => MenuOption::SystemDebug,
            5 => MenuOption::CheckUpdate,
            6 => MenuOption::SystemUpgrade,
            7 => MenuOption::PackageBackup,
            8 => MenuOption::UtilitiesMenu,
            _ => MenuOption::Exit,
        }
    }

    /// The utilities-menu entry that the user chose at position `selection`.
    pub fn utility_at(selection: usize) -> (o: UtilitiesMenuOption)
        ensures
            o == utilities_entry(selection as nat),
    {
        match selection {
            0 => UtilitiesMenuOption::ConfigureMihomo,
            1 => UtilitiesMenuOption::ConfigureTailscale,
            2 => UtilitiesMenuOption::ConfigureLeigod,
            3 => UtilitiesMenuOption::ConfigureTtyd,
            4 => UtilitiesMenuOption::InstallIpk,
            5 => UtilitiesMenuOption::DeploySslCert,
            6 => UtilitiesMenuOption::ResetPassword,
            7 => UtilitiesMenuOption::SystemReset,
            _ => UtilitiesMenuOption::Back,
        }
    }
}

} // verus!
