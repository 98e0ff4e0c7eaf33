# aloo

A network discovery and service-fingerprinting toolkit whose core is
verified with Verus.

- `src/` is the verified library: port ranges and their iteration, target
  parsing and host enumeration, de-duplicating CIDR expansion, the scan
  scheduler and result assembly, rate-limiter arithmetic, configuration
  defaults and overrides, banner decoding, service and OS fingerprinting,
  CPE mapping, vulnerability merging, TLS cipher and certificate
  assessment, the DNS cache, the plugin registry and the AI prompt texts.
  Every public function carries a contract; the laws that relate several
  functions are public proof functions named `law_*`.
- Calls into `ipnet`, `regex`, `uuid`, `chrono` and `dashmap` go through
  small trusted wrappers whose contracts say what those crates document.
- `tests/` runs the library on concrete values.
- `app/` is the `aloo` program: argument parsing, configuration files and
  environment variables, the asynchronous TCP connect scan, logging,
  storage and the async service interfaces.
