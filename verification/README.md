# cihui_tui

A terminal tool for learning Chinese vocabulary: it shows pinyin above the
characters of typed, pasted, photographed or spoken Chinese, and translates
between Chinese and a chosen language with free online services or a local
LTEngine server.

## Layout

- `src/` is the library, written in Verus. Its functions carry contracts that
  Verus proves; the few small functions that call into std or an outside
  crate (`pinyin`, `urlencoding`, `serde_json`) are trusted, and their doc
  comments say what their contracts claim:
  - `pinyin_conv`, `pinyin_laws`: laying pinyin rows over hanzi rows, and the
    proofs that the rows line up, fit the width budget and lose no character.
  - `app`, `cursor`, `keys`, `processing`: the interface state, text editing,
    what every key does, and the steps of turning input into a translation.
  - `translation`, `ltengine`: service requests, Google's answer, the
    fallback order between services and between LibreTranslate instances,
    and the local engine's address, start-up steps and idle rule.
  - `image_source`, `ocr`: recognising image references in pasted text.
  - `transcription`: speech settings, recogniser reports, device discovery.
  - `language`, `config`, `single_instance`, `ui`, `text`: languages and
    settings, the one-copy protocol, screen text, and string helpers.
- `app/` is the program around the library: the terminal loop, HTTP, the
  clipboard, the settings file, speech capture and OCR engines.
- `tests/` exercises the library.
