# tellme

Probes OpenAI-compatible model servers (vLLM, TGI, SGLang, ...) for tool
calling, reasoning and vision support, and shows the results as a terminal
dashboard.

- `src/` is the verified library (Verus): request URLs and bodies, the
  judgement of the server's JSON answers, the order of the checks, and the
  dashboard's text and tables.
- `app/` is the command-line program around it: argument parsing, HTTP
  requests, timing, and printing.
- `tests/` runs the library on concrete inputs.
