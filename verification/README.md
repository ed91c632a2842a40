# nitro

A terminal assistant that talks to a language model (OpenAI-compatible Chat
Completions or Anthropic Messages), shows its answers as they stream, and runs
the tools the model asks for (a Bash command, or questions to the user) once
the user or the safety rules allow it.

## Layout

- `src/` — the library, verified with Verus. Every public function states its
  result in `ensures`; the laws that span several functions are public proof
  functions named `law_*`.
  - `cli.rs` — the command line.
  - `text.rs` — character-level string helpers with exact contracts.
  - `logic/` — settings, providers, conversations, the agreement text, and
    `llm/`: JSON values as plain data (read and written by `serde_json`),
    messages, the SSE framing, the two streaming protocols as state machines
    (with the decoding of Anthropic event frames), the JSON body each
    protocol is sent, and how a turn is assembled.
  - `tools/` — the Bash and ask-the-user tools: their input schemas, inputs,
    outputs and the display of command output.
  - `screens/` — what each key does on each screen, the lines the chat
    transcript shows, and the text of the tool-call modals.
  - `app/` — the approval rules for commands, prompts, and the calendar date
    of the system prompt.
- `app/` — the program: terminal and file I/O, HTTP streaming, the JSON
  encodings, and the loops that feed events to the library and carry out what
  it decides.
- `tests/` — tests of the library.
