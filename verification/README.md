# glm_autopay

Polls the GLM Coding shop of bigmodel.cn for a plan, and once it can be
ordered builds the pay-middle page links (sealed with AES-128-ECB, base64 and
percent-encoding) and saves them as QR codes. A setup wizard reads accounts
exported from the browser, lets each pick a plan and a pay type, and writes
`config.json`.

Layout:

- `src/` — the library, written in Verus with its contracts and proofs:
  `config` (accounts and pay types), `client` (request headers), `api::pay`
  (preview, create-sign and pay-middle requests, the refer parameter, QR
  codes), `setup` (JWT payloads, wizard answers), `schedule` (polling rounds),
  `crypto` (PKCS#7 and ECB), `base64`, `json`, `text` (digits and strings),
  `model` and `error`.
- `app/` — the program around it: HTTP, terminal, files, time and the
  Windows console.
- `tests/` — tests of the library on concrete values.
