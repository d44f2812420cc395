# wayvr

The verified core of the WayVR overlay, written in Verus.

`src/` is the library. Its functions carry contracts that Verus proves,
except a few small trusted wrappers around outside calls (parsing and
building URIs with hyper, `String::push`, `Debug` formatting), whose
contracts are taken on trust:

- `text` — character-level string work (`split_once`, `trim`, `split`,
  whitespace normalisation, decimal formatting) with specifications over
  `Seq<char>`.
- `gen_vec` — the generational slot table behind window and process
  handles; a removed handle never names a later object.
- `window` — the compositor's window table.
- `color` — theme color names, the default palette and the grammar of color
  references such as `primary(opacity-0.5)`.
- `palette_menu` — palette dropdown actions, palette buttons and the palette
  view's decisions.
- `whisper_models`, `whisper_stt` — speech-to-text models, configuration,
  errors, and the decisions of the push-to-talk session and the recognizer.
- `capture` — byte bookkeeping of the microphone stream.
- `overlay` — the speech-to-text overlay's commands and paste decisions.
- `compositor` — client environments, managed/external clients, display
  numbers, pointer buttons.
- `http` — download requests, redirects and the announced body size.

`app/` holds what the library leaves to its caller: floating-point color
math, the HTTP client's I/O, model files on disk, and the audio capture and
recognition threads. `tests/` exercises the library on concrete values.
