# cyvra_core

The CYVRA Windows agent's core: a read-only privacy and hardware assessment of
a PC, the Advance scan and its Report D, and the Mode S purge planner, written
in Verus with each library function's behaviour stated as a contract and
proved.

- `src/` is the verified library. Collector scripts are constants; their
  output is parsed here (`probe_protocol`, one module per probe). The Advance
  scan's stage order and Report D assembly (`advance`), report texts, grading
  (`hardware_diagnostics_v1`), the customer view (`customer`,
  `customer_fields`), the integrity seal (`report_signing`), the purge planner,
  its progress stages and helper protocol (`purge`), and the decisions of the
  bounded command runner (`collector_runtime`) are all here.
- `app/` is the program around it: it runs PowerShell, walks folders, reads
  and writes the purge files, and measures benchmark timings. The processor
  and memory scores, which rest on floating-point timings, are computed there
  and handed to the library; the rest of its decisions are calls into the
  library.
- `tests/` exercises the library on concrete inputs.
