# lau-sia2-engine

Spectral improvement engine for self-improving agents: spectral decomposition
of capability performance, Banach contraction tracking, conservation checks,
Fisher information, reaction–diffusion prediction and renormalization-group
classification.

Layout:

- `src/` — the verified core (Verus): capability names and eigenmode naming,
  the coupling pattern of the correlation matrix, the conservation-law
  schedule, the neighbour structure of the discrete Laplacian, the
  universality-class rule and its index windows, the feedback report text,
  decimal rendering and timestamps. Every public function carries a
  contract; the laws (symmetry of the coupling pattern, completeness of the
  law schedule, distinct class names, what the report mentions, neighbour
  symmetry) are proof functions.
- `app/` — the floating-point engine built on the core: Jacobi
  eigendecomposition (nalgebra), contraction ratios, Fisher matrices, PDE
  steps, RG flow, trajectories (serde) and the orchestrator.
- `tests/` — tests of the verified core.
