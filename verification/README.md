# transcriber

A transcriber that turns audio recordings into text, with Whisper (candle),
Parakeet or Moonshine (transcribe-rs) as the speech engine.

- `src/` is the library, verified with Verus: runtime and model selection
  (`config`), the transcriber's engine and input rules (`transcriber`),
  model sources and the plans of hub downloads, which file is asked for next
  and what each answer leads to (`parakeet`, `moonshine`, `whisper`,
  `models`, `paths`),
  Whisper windowing and prompting (`whisper`), packet-error handling of the
  audio decoder (`audio`), the directory-watch rules and the processed-files
  store (`watcher`), transcript text (`writer`), the command line as data
  (`cli`) and the text helpers they share (`text`).
- `app/` is the program around it: argument parsing with clap, the requests
  to the Hugging Face hub, audio decoding and resampling, the speech engines,
  file writing and the watch loop.
- `tests/` exercises the library.

The Whisper engine reads its mel filter banks (`melfilters.bytes`,
`melfilters128.bytes`) from the directory of the executable.
