//! Startup registration of the standard command and event handlers.
//!
//! Each group registers the identifiers of one API family into the
//! command-dispatch registry (or, for the log family, the event bus).
//! Registration happens once at startup; the registries are immutable
//! afterwards.

use vstd::prelude::*;
use vstd::string::*;

use crate::ops::{OpKind, OsQuery, WebWindowOp};
use crate::registry::{spec_has_command, CommandRegistry, RegisteredCommand};
use crate::trigger::{spec_registered, EventRegistry};

verus! {

/// Registers all application-control commands: name, version, exit.
pub struct AllAppPlugins;

impl AllAppPlugins {
    /// Installs the application commands.
    pub fn register(self, reg: &mut CommandRegistry)
        requires
            old(reg).wf(),
            !spec_has_command(old(reg).spec_commands(), "FLURX|app::get_name"@),
            !spec_has_command(old(reg).spec_commands(), "FLURX|app::get_version"@),
            !spec_has_command(old(reg).spec_commands(), "FLURX|app::exit"@),
        ensures
            final(reg).wf(),
            final(reg).spec_calls() == old(reg).spec_calls(),
            final(reg).spec_next_call() == old(reg).spec_next_call(),
            final(reg).spec_commands().len() == old(reg).spec_commands().len() + 3,
            forall|k: int|
                0 <= k < old(reg).spec_commands().len()
                    ==> #[trigger] final(reg).spec_commands()[k] == old(reg).spec_commands()[k],
            ({
                let base = old(reg).spec_commands().len() as int;
                let cmds = final(reg).spec_commands();
                &&& cmds[base].id@ == "FLURX|app::get_name"@
                &&& cmds[base].kind == OpKind::AppGetName
                &&& cmds[base + 1].id@ == "FLURX|app::get_version"@
                &&& cmds[base + 1].kind == OpKind::AppGetVersion
                &&& cmds[base + 2].id@ == "FLURX|app::exit"@
                &&& cmds[base + 2].kind == OpKind::AppExit
            }),
    {
        let entries: Vec<RegisteredCommand> = vec![
            RegisteredCommand { id: "FLURX|app::get_name".to_owned(), kind: OpKind::AppGetName },
            RegisteredCommand {
                id: "FLURX|app::get_version".to_owned(),
                kind: OpKind::AppGetVersion,
            },
            RegisteredCommand { id: "FLURX|app::exit".to_owned(), kind: OpKind::AppExit },
        ];
        proof {
            reveal_strlit("FLURX|app::get_name");
            reveal_strlit("FLURX|app::get_version");
            reveal_strlit("FLURX|app::exit");
            assert(entries@.len() == 3);
            assert(entries@[0].id@ == "FLURX|app::get_name"@);
            assert(entries@[1].id@ == "FLURX|app::get_version"@);
            assert(entries@[2].id@ == "FLURX|app::exit"@);
        }
        reg.register_all(entries);
    }
}

/// Registers all filesystem commands included in this bridge: create a
/// directory, check existence, remove a directory.
pub struct AllFsPlugins;

impl AllFsPlugins {
    /// Installs the filesystem commands.
    pub fn register(self, reg: &mut CommandRegistry)
        requires
            old(reg).wf(),
            !spec_has_command(old(reg).spec_commands(), "FLURX|fs::create_dir"@),
            !spec_has_command(old(reg).spec_commands(), "FLURX|fs::exists"@),
            !spec_has_command(old(reg).spec_commands(), "FLURX|fs::remove_dir"@),
        ensures
            final(reg).wf(),
            final(reg).spec_calls() == old(reg).spec_calls(),
            final(reg).spec_next_call() == old(reg).spec_next_call(),
            final(reg).spec_commands().len() == old(reg).spec_commands().len() + 3,
            forall|k: int|
                0 <= k < old(reg).spec_commands().len()
                    ==> #[trigger] final(reg).spec_commands()[k] == old(reg).spec_commands()[k],
            ({
                let base = old(reg).spec_commands().len() as int;
                let cmds = final(reg).spec_commands();
                &&& cmds[base].id@ == "FLURX|fs::create_dir"@
                &&& cmds[base].kind == OpKind::FsCreateDir
                &&& cmds[base + 1].id@ == "FLURX|fs::exists"@
                &&& cmds[base + 1].kind == OpKind::FsExists
                &&& cmds[base + 2].id@ == "FLURX|fs::remove_dir"@
                &&& cmds[base + 2].kind == OpKind::FsRemoveDir
            }),
    {
        let entries: Vec<RegisteredCommand> = vec![
            RegisteredCommand {
                id: "FLURX|fs::create_dir".to_owned(),
                kind: OpKind::FsCreateDir,
            },
            RegisteredCommand { id: "FLURX|fs::exists".to_owned(), kind: OpKind::FsExists },
            RegisteredCommand {
                id: "FLURX|fs::remove_dir".to_owned(),
                kind: OpKind::FsRemoveDir,
            },
        ];
        proof {
            reveal_strlit("FLURX|fs::create_dir");
            reveal_strlit("FLURX|fs::exists");
            reveal_strlit("FLURX|fs::remove_dir");
            assert(entries@.len() == 3);
            assert(entries@[0].id@ == "FLURX|fs::create_dir"@);
            assert(entries@[1].id@ == "FLURX|fs::exists"@);
            assert(entries@[2].id@ == "FLURX|fs::remove_dir"@);
            assert("FLURX|fs::create_dir"@[10] != "FLURX|fs::remove_dir"@[10]);
        }
        reg.register_all(entries);
    }
}

/// Registers the filesystem scope type with the host's type registry.  The
/// scope itself is [`crate::fsapi::AllowPaths`]; this marker carries no
/// behaviour of its own.
pub struct FsRegisterTypePlugin;

/// Registers all system-information commands.
pub struct AllOsPlugins;

impl AllOsPlugins {
    /// Installs the system-information commands.
    pub fn register(self, reg: &mut CommandRegistry)
        requires
            old(reg).wf(),
            !spec_has_command(old(reg).spec_commands(), "FLURX|os::arch"@),
            !spec_has_command(old(reg).spec_commands(), "FLURX|os::family"@),
            !spec_has_command(old(reg).spec_commands(), "FLURX|os::version"@),
            !spec_has_command(old(reg).spec_commands(), "FLURX|os::long_version"@),
            !spec_has_command(old(reg).spec_commands(), "FLURX|os::kernel_version"@),
            !spec_has_command(old(reg).spec_commands(), "FLURX|os::system_name"@),
            !spec_has_command(old(reg).spec_commands(), "FLURX|os::host_name"@),
            !spec_has_command(old(reg).spec_commands(), "FLURX|os::locale"@),
        ensures
            final(reg).wf(),
            final(reg).spec_calls() == old(reg).spec_calls(),
            final(reg).spec_next_call() == old(reg).spec_next_call(),
            final(reg).spec_commands().len() == old(reg).spec_commands().len() + 8,
            forall|k: int|
                0 <= k < old(reg).spec_commands().len()
                    ==> #[trigger] final(reg).spec_commands()[k] == old(reg).spec_commands()[k],
            ({
                let base = old(reg).spec_commands().len() as int;
                let cmds = final(reg).spec_commands();
                &&& cmds[base].id@ == "FLURX|os::arch"@
                &&& cmds[base].kind == OpKind::Os(OsQuery::Arch)
                &&& cmds[base + 1].id@ == "FLURX|os::family"@
                &&& cmds[base + 1].kind == OpKind::Os(OsQuery::Family)
                &&& cmds[base + 2].id@ == "FLURX|os::version"@
                &&& cmds[base + 2].kind == OpKind::Os(OsQuery::Version)
                &&& cmds[base + 3].id@ == "FLURX|os::long_version"@
                &&& cmds[base + 3].kind == OpKind::Os(OsQuery::LongVersion)
                &&& cmds[base + 4].id@ == "FLURX|os::kernel_version"@
                &&& cmds[base + 4].kind == OpKind::Os(OsQuery::KernelVersion)
                &&& cmds[base + 5].id@ == "FLURX|os::system_name"@
                &&& cmds[base + 5].kind == OpKind::Os(OsQuery::SystemName)
                &&& cmds[base + 6].id@ == "FLURX|os::host_name"@
                &&& cmds[base + 6].kind == OpKind::Os(OsQuery::HostName)
                &&& cmds[base + 7].id@ == "FLURX|os::locale"@
                &&& cmds[base + 7].kind == OpKind::Os(OsQuery::Locale)
            }),
    {
        let entries: Vec<RegisteredCommand> = vec![
            RegisteredCommand { id: "FLURX|os::arch".to_owned(), kind: OpKind::Os(OsQuery::Arch) },
            RegisteredCommand {
                id: "FLURX|os::family".to_owned(),
                kind: OpKind::Os(OsQuery::Family),
            },
            RegisteredCommand {
                id: "FLURX|os::version".to_owned(),
                kind: OpKind::Os(OsQuery::Version),
            },
            RegisteredCommand {
                id: "FLURX|os::long_version".to_owned(),
                kind: OpKind::Os(OsQuery::LongVersion),
            },
            RegisteredCommand {
                id: "FLURX|os::kernel_version".to_owned(),
                kind: OpKind::Os(OsQuery::KernelVersion),
            },
            RegisteredCommand {
                id: "FLURX|os::system_name".to_owned(),
                kind: OpKind::Os(OsQuery::SystemName),
            },
            RegisteredCommand {
                id: "FLURX|os::host_name".to_owned(),
                kind: OpKind::Os(OsQuery::HostName),
            },
            RegisteredCommand {
                id: "FLURX|os::locale".to_owned(),
                kind: OpKind::Os(OsQuery::Locale),
            },
        ];
        proof {
            reveal_strlit("FLURX|os::arch");
            reveal_strlit("FLURX|os::family");
            reveal_strlit("FLURX|os::version");
            reveal_strlit("FLURX|os::long_version");
            reveal_strlit("FLURX|os::kernel_version");
            reveal_strlit("FLURX|os::system_name");
            reveal_strlit("FLURX|os::host_name");
            reveal_strlit("FLURX|os::locale");
            assert(entries@.len() == 8);
            assert(entries@[0].id@ == "FLURX|os::arch"@);
            assert(entries@[1].id@ == "FLURX|os::family"@);
            assert(entries@[2].id@ == "FLURX|os::version"@);
            assert(entries@[3].id@ == "FLURX|os::long_version"@);
            assert(entries@[4].id@ == "FLURX|os::kernel_version"@);
            assert(entries@[5].id@ == "FLURX|os::system_name"@);
            assert(entries@[6].id@ == "FLURX|os::host_name"@);
            assert(entries@[7].id@ == "FLURX|os::locale"@);
            assert("FLURX|os::family"@[10] != "FLURX|os::locale"@[10]);
        }
        reg.register_all(entries);
    }
}

/// Registers the notification command.
pub struct NotificationSendPlugin;

impl NotificationSendPlugin {
    /// Installs the notification command.
    pub fn register(self, reg: &mut CommandRegistry)
        requires
            old(reg).wf(),
            !spec_has_command(old(reg).spec_commands(), "FLURX|notification::send"@),
        ensures
            final(reg).wf(),
            final(reg).spec_calls() == old(reg).spec_calls(),
            final(reg).spec_next_call() == old(reg).spec_next_call(),
            final(reg).spec_commands().len() == old(reg).spec_commands().len() + 1,
            forall|k: int|
                0 <= k < old(reg).spec_commands().len()
                    ==> #[trigger] final(reg).spec_commands()[k] == old(reg).spec_commands()[k],
            final(reg).spec_commands().last().id@ == "FLURX|notification::send"@,
            final(reg).spec_commands().last().kind == OpKind::NotificationSend,
    {
        let entries: Vec<RegisteredCommand> = vec![
            RegisteredCommand {
                id: "FLURX|notification::send".to_owned(),
                kind: OpKind::NotificationSend,
            },
        ];
        proof {
            assert(entries@.len() == 1);
            assert(entries@[0].id@ == "FLURX|notification::send"@);
        }
        reg.register_all(entries);
    }
}

/// Registers all web-window commands.
pub struct AllWebWindowPlugins;

impl AllWebWindowPlugins {
    /// Installs the web-window commands.
    #[verifier::rlimit(30)]
    pub fn register(self, reg: &mut CommandRegistry)
        requires
            old(reg).wf(),
            !spec_has_command(old(reg).spec_commands(), "FLURX|web_window::center"@),
            !spec_has_command(old(reg).spec_commands(), "FLURX|web_window::focus"@),
            !spec_has_command(old(reg).spec_commands(), "FLURX|web_window::is_decorated"@),
            !spec_has_command(old(reg).spec_commands(), "FLURX|web_window::is_focused"@),
            !spec_has_command(old(reg).spec_commands(), "FLURX|web_window::is_fullscreen"@),
            !spec_has_command(old(reg).spec_commands(), "FLURX|web_window::is_maximizable"@),
            !spec_has_command(old(reg).spec_commands(), "FLURX|web_window::is_maximized"@),
            !spec_has_command(old(reg).spec_commands(), "FLURX|web_window::is_resizable"@),
            !spec_has_command(old(reg).spec_commands(), "FLURX|web_window::maximize"@),
            !spec_has_command(old(reg).spec_commands(), "FLURX|web_window::outer_position"@),
            !spec_has_command(old(reg).spec_commands(), "FLURX|web_window::un_focus"@),
            !spec_has_command(old(reg).spec_commands(), "FLURX|web_window::un_minimize"@),
        ensures
            final(reg).wf(),
            final(reg).spec_calls() == old(reg).spec_calls(),
            final(reg).spec_next_call() == old(reg).spec_next_call(),
            final(reg).spec_commands().len() == old(reg).spec_commands().len() + 12,
            forall|k: int|
                0 <= k < old(reg).spec_commands().len()
                    ==> #[trigger] final(reg).spec_commands()[k] == old(reg).spec_commands()[k],
            ({
                let base = old(reg).spec_commands().len() as int;
                let cmds = final(reg).spec_commands();
                &&& cmds[base].id@ == "FLURX|web_window::center"@
                &&& cmds[base].kind == OpKind::WebWindow(WebWindowOp::Center)
                &&& cmds[base + 1].id@ == "FLURX|web_window::focus"@
                &&& cmds[base + 1].kind == OpKind::WebWindow(WebWindowOp::Focus)
                &&& cmds[base + 2].id@ == "FLURX|web_window::is_decorated"@
                &&& cmds[base + 2].kind == OpKind::WebWindow(WebWindowOp::IsDecorated)
                &&& cmds[base + 3].id@ == "FLURX|web_window::is_focused"@
                &&& cmds[base + 3].kind == OpKind::WebWindow(WebWindowOp::IsFocused)
                &&& cmds[base + 4].id@ == "FLURX|web_window::is_fullscreen"@
                &&& cmds[base + 4].kind == OpKind::WebWindow(WebWindowOp::IsFullscreen)
                &&& cmds[base + 5].id@ == "FLURX|web_window::is_maximizable"@
                &&& cmds[base + 5].kind == OpKind::WebWindow(WebWindowOp::IsMaximizable)
                &&& cmds[base + 6].id@ == "FLURX|web_window::is_maximized"@
                &&& cmds[base + 6].kind == OpKind::WebWindow(WebWindowOp::IsMaximized)
                &&& cmds[base + 7].id@ == "FLURX|web_window::is_resizable"@
                &&& cmds[base + 7].kind == OpKind::WebWindow(WebWindowOp::IsResizable)
                &&& cmds[base + 8].id@ == "FLURX|web_window::maximize"@
                &&& cmds[base + 8].kind == OpKind::WebWindow(WebWindowOp::Maximize)
                &&& cmds[base + 9].id@ == "FLURX|web_window::outer_position"@
                &&& cmds[base + 9].kind == OpKind::WebWindow(WebWindowOp::OuterPosition)
                &&& cmds[base + 10].id@ == "FLURX|web_window::un_focus"@
                &&& cmds[base + 10].kind == OpKind::WebWindow(WebWindowOp::UnFocus)
                &&& cmds[base + 11].id@ == "FLURX|web_window::un_minimize"@
                &&& cmds[base + 11].kind == OpKind::WebWindow(WebWindowOp::UnMinimize)
            }),
    {
        let entries: Vec<RegisteredCommand> = vec![
            RegisteredCommand {
                id: "FLURX|web_window::center".to_owned(),
                kind: OpKind::WebWindow(WebWindowOp::Center),
            },
            RegisteredCommand {
                id: "FLURX|web_window::focus".to_owned(),
                kind: OpKind::WebWindow(WebWindowOp::Focus),
            },
            RegisteredCommand {
                id: "FLURX|web_window::is_decorated".to_owned(),
                kind: OpKind::WebWindow(WebWindowOp::IsDecorated),
            },
            RegisteredCommand {
                id: "FLURX|web_window::is_focused".to_owned(),
                kind: OpKind::WebWindow(WebWindowOp::IsFocused),
            },
            RegisteredCommand {
                id: "FLURX|web_window::is_fullscreen".to_owned(),
                kind: OpKind::WebWindow(WebWindowOp::IsFullscreen),
            },
            RegisteredCommand {
                id: "FLURX|web_window::is_maximizable".to_owned(),
                kind: OpKind::WebWindow(WebWindowOp::IsMaximizable),
            },
            RegisteredCommand {
                id: "FLURX|web_window::is_maximized".to_owned(),
                kind: OpKind::WebWindow(WebWindowOp::IsMaximized),
            },
            RegisteredCommand {
                id: "FLURX|web_window::is_resizable".to_owned(),
                kind: OpKind::WebWindow(WebWindowOp::IsResizable),
            },
            RegisteredCommand {
                id: "FLURX|web_window::maximize".to_owned(),
                kind: OpKind::WebWindow(WebWindowOp::Maximize),
            },
            RegisteredCommand {
                id: "FLURX|web_window::outer_position".to_owned(),
                kind: OpKind::WebWindow(WebWindowOp::OuterPosition),
            },
            RegisteredCommand {
                id: "FLURX|web_window::un_focus".to_owned(),
                kind: OpKind::WebWindow(WebWindowOp::UnFocus),
            },
            RegisteredCommand {
                id: "FLURX|web_window::un_minimize".to_owned(),
                kind: OpKind::WebWindow(WebWindowOp::UnMinimize),
            },
        ];
        proof {
            reveal_strlit("FLURX|web_window::center");
            reveal_strlit("FLURX|web_window::focus");
            reveal_strlit("FLURX|web_window::is_decorated");
            reveal_strlit("FLURX|web_window::is_focused");
            reveal_strlit("FLURX|web_window::is_fullscreen");
            reveal_strlit("FLURX|web_window::is_maximizable");
            reveal_strlit("FLURX|web_window::is_maximized");
            reveal_strlit("FLURX|web_window::is_resizable");
            reveal_strlit("FLURX|web_window::maximize");
            reveal_strlit("FLURX|web_window::outer_position");
            reveal_strlit("FLURX|web_window::un_focus");
            reveal_strlit("FLURX|web_window::un_minimize");
            assert(entries@.len() == 12);
            assert(entries@[0].id@ == "FLURX|web_window::center"@);
            assert(entries@[1].id@ == "FLURX|web_window::focus"@);
            assert(entries@[2].id@ == "FLURX|web_window::is_decorated"@);
            assert(entries@[3].id@ == "FLURX|web_window::is_focused"@);
            assert(entries@[4].id@ == "FLURX|web_window::is_fullscreen"@);
            assert(entries@[5].id@ == "FLURX|web_window::is_maximizable"@);
            assert(entries@[6].id@ == "FLURX|web_window::is_maximized"@);
            assert(entries@[7].id@ == "FLURX|web_window::is_resizable"@);
            assert(entries@[8].id@ == "FLURX|web_window::maximize"@);
            assert(entries@[9].id@ == "FLURX|web_window::outer_position"@);
            assert(entries@[10].id@ == "FLURX|web_window::un_focus"@);
            assert(entries@[11].id@ == "FLURX|web_window::un_minimize"@);
            assert("FLURX|web_window::is_decorated"@[21] != "FLURX|web_window::is_maximized"@[21]);
            assert("FLURX|web_window::is_decorated"@[21] != "FLURX|web_window::is_resizable"@[21]);
            assert("FLURX|web_window::is_maximized"@[21] != "FLURX|web_window::is_resizable"@[21]);
            assert("FLURX|web_window::is_maximizable"@[18] != "FLURX|web_window::outer_position"@[18]);
            assert("FLURX|web_window::maximize"@[18] != "FLURX|web_window::un_focus"@[18]);
        }
        reg.register_all(entries);
    }
}

/// Registers the log events: a plain console print, and a levelled log
/// record.  Both arrive as event messages and are observed by the host,
/// which performs the printing.
pub struct AllLogPlugins;

impl AllLogPlugins {
    /// Installs the log event identifiers on the event bus.
    pub fn register(self, bus: &mut EventRegistry)
        requires
            !spec_registered(old(bus)@, "FLURX|log::println"@),
            !spec_registered(old(bus)@, "FLURX|log::log"@),
        ensures
            final(bus)@ == old(bus)@.push("FLURX|log::println"@).push("FLURX|log::log"@),
    {
        proof {
            reveal_strlit("FLURX|log::println");
            reveal_strlit("FLURX|log::log");
        }
        let added_println = bus.register("FLURX|log::println".to_owned());
        proof {
            assert(added_println);
            if spec_registered(bus@, "FLURX|log::log"@) {
                let w = choose|k: int| 0 <= k < bus@.len() && bus@[k] == "FLURX|log::log"@;
                if w < old(bus)@.len() {
                    assert(bus@[w] == old(bus)@[w]);
                    assert(spec_registered(old(bus)@, "FLURX|log::log"@));
                } else {
                    assert(bus@[w] == "FLURX|log::println"@);
                }
                assert(false);
            }
        }
        let added_log = bus.register("FLURX|log::log".to_owned());
        proof {
            assert(added_log);
        }
    }
}

} // verus!
