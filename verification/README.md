# navigator

The decision logic of the NemoClaw command line, verified with Verus: how a gateway
is deployed, found again and addressed, how its TLS secrets are written and read
back, and what the command line makes of its arguments.

- `src/` is the verified library. Its functions work on plain values; an error of a
  connection is read as the `miette::Report` that it comes as.
- `tests/` runs it on concrete values.
- `app/` is the `nemoclaw` program: it reads the configuration directory and the
  environment, parses the arguments, and does the work of the stages that the
  library plans. What talks to gateways, containers and clusters goes through a
  helper program (`NEMOCLAW_HELPER`, by default `nemoclaw-helper`).

| Module | What it decides |
| --- | --- |
| `options`, `tls` | options of a deployment and of a connection |
| `deploy` | the stages of a deployment, what each is to do, and what follows from its end |
| `hosts`, `images` | the names on a gateway's certificate; the images it uses |
| `reconcile`, `pki`, `encoding` | when TLS secrets are reused, and how they are stored |
| `namespace`, `shell` | how a namespace is waited for; the commands run in the container |
| `metadata`, `gateway` | what is stored of gateways, and which one a command addresses |
| `bootstrap`, `cli` | when a gateway is deployed for a sandbox; the arguments |
| `text` | searching, trimming, splitting and numbers |
