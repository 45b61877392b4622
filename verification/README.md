# whatsapp_web_wrapper

The decisions of a small desktop shell around WhatsApp Web (a Tauri
application), as a Verus-verified library, and the program around it.

- `src/` — the verified library:
  - `settings` — the persisted settings (`AppState`), their defaults, how a
    settings file with missing fields is read, and the setters;
  - `startup` — whether the main window starts in the tray and with which
    size;
  - `window` — hiding the main window to the tray, restoring it, the
    show/hide toggle, close requests;
  - `tray` — the tray icon, the layout of the tray menu, and what each menu
    entry or click on the icon does;
  - `notification` — turning a notification posted by the page into a
    desktop notification, and the click on it into a restored window and a
    script for the page;
  - `text` — string comparison and decimal notation.
- `app/` — the program: Tauri setup, windows, files, JSON, D-Bus
  notifications. It performs what the library decides and hands the results
  back.
- `tests/` — tests of the library.
