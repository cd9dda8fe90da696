# catools

A configuration tool for CatWrt/OpenWrt routers: LAN address, network
wizard, bypass gateway, package sources, package backup and restore,
diagnosis, system report, upgrades and a few utilities.

The library (`src/`) is verified with Verus. It holds what the tool decides
and computes:

- `utils::validation`: LAN addresses and `vYY.M` versions, with the laws of
  the version order;
- `text`: the `str` operations the tool relies on (trim, split, lines,
  prefixes, replace), specified over `Seq<char>`;
- `uci`: the `uci` commands of each configuration task;
- `modules`: the network wizard, the bypass-gateway set-up and the
  package-source dialogue as state machines (state and event in, next state,
  notices and action out), package backup and restore, the system report,
  the upgrade choices;
- `cli`, `config`, `menu`, `constants`: options, settings paths and menu
  entries;
- `api`: the replies of the web services; the package-source reply is parsed
  as JSON (by `serde_json`, behind one trusted call) and read as serde reads
  a `RepoSource`;
- `archive`: a ZIP archive as the `zip` crate reads it (behind one trusted
  call) and the plan that extracts it, each entry at its name joined to the
  target directory as `Path::join` joins them.

The program (`app/`) does the input and output: prompts, running commands,
files, HTTP, the TOML settings file and the JSON of the update reply. It drives the state machines by performing each
action and handing back what came of it.
