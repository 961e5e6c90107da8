# JITserver

A window that enables JIT for apps on iOS devices, for macOS, Windows and Linux.

The decisions of the program are a library that is verified with Verus. It opens no
connection and reads no file: it says what to do next and is told how that went.

## Layout

- `src/` is the library.
  - `device`, `listing`, `property_list`, `disk_image`: what is known of devices, and what
    their answers mean.
  - `worker`: the steps in which a command for a device is worked off.
  - `packets`, `transfer`, `scripts`: what a running script asks of the debugserver.
  - `catalog`: the scripts on offer, and which of them suits an app.
  - `debugger`, `events`, `controls`, `script_list`, `imports`, `display`: the memory of the
    window, and all that changes or shows it.
  - `window`, `session`: what stays true of the window, alone and together with the worker.
  - `host`: what depends on the system.
  - `text`, `order`, `lists`: the groundwork.
- `app/` is the program around the library: the window, the connections to devices, the
  JavaScript engine and the files.
- `tests/` runs the library on given values.

Public proof functions whose names start with `law_` state what holds of the library as a whole.

## Built-in scripts and installed files

A release build holds the built-in scripts in itself. It takes their texts from the variables
`JITSERVER_GEODE_JS`, `JITSERVER_MACIOS_JS`, `JITSERVER_UNIVERSAL_JS` and
`JITSERVER_UTM_DOLPHINIOS_FLYCAST_JS` when it is compiled. A build without them reads the files
`Geode.js`, `maciOS.js`, `universal.js` and `UTM-DolphiniOS-Flycast.js` from the folder
`assets/scripts` beside the program.

The folder `assets` beside the program also holds:

- `ddi/BuildManifest.plist`, `ddi/Image.dmg` and `ddi/Image.dmg.trustcache`, the developer disk
  image;
- `Linux.png`, the icon of the window.

Imported scripts are kept in the user's own data folder.
