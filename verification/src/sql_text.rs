use vstd::prelude::*;

verus! {

/// Library fines listing: unpaid fines, paid fines and older paid fines in one union.
pub const LIBRARY_FEES_SQL: &'static str = r#"
            WITH library_union AS (
                -- 1. Unpaid fines from book_issues
                SELECT 
                    bi.id,
                    m.student_id,
                    m.name AS student_name,
                    s.class_name AS class,
                    b.title AS room,
                    (CURRENT_DATE - bi.due_date)::int AS overdue_days,
                    0.00::float8 AS amount,
                    bi.fine_amount::float8 AS due_fees,
                    '—' AS payment_mode,
                    bi.remarks,
                    NULL::date AS payment_date,
                    NULL::date AS receipt_date,
                    '—' AS receipt_no,
                    '—' AS receipt_book_no,
                    '—' AS utr_no,
                    bi.created_at
                FROM book_issues bi
                JOIN library_members m ON m.id = bi.member_id
                JOIN books b ON b.id = bi.book_id
                LEFT JOIN students s ON s.student_id = m.student_id
                WHERE bi.fine_amount > 0 AND bi.fine_paid = false

                UNION ALL

                -- 2. Paid fines from fee_collections
                SELECT 
                    f.id,
                    f.student_id,
                    s.name AS student_name,
                    s.class_name AS class,
                    f.room,
                    0::int AS overdue_days,
                    f.amount::float8 AS amount,
                    f.due_fees::float8 AS due_fees,
                    f.payment_mode,
                    f.remarks,
                    f.payment_date,
                    f.receipt_date,
                    f.receipt_no,
                    f.receipt_book_no,
                    f.utr_no,
                    f.created_at
                FROM fee_collections f
                JOIN students s ON s.student_id = f.student_id
                WHERE f.fee_type = 'library'

                UNION ALL

                -- 3. Legacy paid fines from book_issues
                SELECT 
                    bi.id,
                    m.student_id,
                    m.name AS student_name,
                    s.class_name AS class,
                    b.title AS room,
                    0::int AS overdue_days,
                    bi.fine_amount::float8 AS amount,
                    0.00::float8 AS due_fees,
                    'Cash' AS payment_mode,
                    bi.remarks,
                    bi.return_date AS payment_date,
                    bi.return_date AS receipt_date,
                    '—' AS receipt_no,
                    '—' AS receipt_book_no,
                    '—' AS utr_no,
                    bi.created_at
                FROM book_issues bi
                JOIN library_members m ON m.id = bi.member_id
                JOIN books b ON b.id = bi.book_id
                LEFT JOIN students s ON s.student_id = m.student_id
                WHERE bi.fine_amount > 0 
                  AND bi.fine_paid = true
                  AND NOT EXISTS (
                      SELECT 1 FROM fee_collections f 
                      WHERE f.student_id = m.student_id 
                        AND f.fee_type = 'library' 
                        AND f.room = b.title
                  )
            )
            SELECT *, COUNT(*) OVER()::int AS total_count 
            FROM library_union
            WHERE 1=1
        "#;

/// Fee collection listing of one fee type (bound as `$1`), with student details.
pub const FEES_SQL: &'static str = r#"
        SELECT f.id, f.student_id, f.fee_type, f.room, f.bus_route, f.bus_no, f.receipt_book_no, f.receipt_no, f.receipt_date, f.payment_date,
               f.amount::float8 AS amount, f.utr_no, f.payment_mode, f.due_fees::float8 AS due_fees, f.remarks, f.discount::float8 AS discount, f.created_at,
               COALESCE(NULLIF(s.name, ''), f.student_id) AS student_name, s.class_name AS class_name, s.course_name AS course_name,
               COUNT(*) OVER()::int AS total_count
        FROM fee_collections f
        LEFT JOIN students s ON (TRIM(s.student_id) = TRIM(f.student_id) OR s.student_id ILIKE f.student_id)
        WHERE f.fee_type = $1
    "#;

/// Hostel room listing with the number of occupied beds.
pub const ROOMS_SQL: &'static str = r#"
        SELECT hr.id, hr.room_no, hr.block, hr.floor, hr.capacity, hr.room_type,
               hr.fee_per_term::float8 AS fee_per_term, hr.status, hr.remarks,
               hr.created_at, hr.updated_at,
               COALESCE((SELECT COUNT(*) FROM hostel_students hs WHERE hs.room_no = hr.room_no AND hs.status = 'active'), 0)::bigint AS occupied_beds
        FROM hostel_rooms hr
        WHERE 1=1
    "#;

/// Hostel resident listing with student details.
pub const HOSTEL_STUDENTS_SQL: &'static str = r#"
        SELECT hs.id, hs.student_id, hs.room_no, hs.bed_no, hs.check_in_date,
               hs.fee_amount::float8 AS fee_amount, hs.status, hs.emergency_contact, hs.remarks,
               hs.created_at, hs.updated_at,
               COALESCE(s.name, hs.student_id) AS student_name,
               s.class_name AS class_name,
               s.course_name AS course_name,
               COUNT(*) OVER()::int AS total_count
        FROM hostel_students hs
        LEFT JOIN students s ON LOWER(TRIM(s.student_id)) = LOWER(TRIM(hs.student_id))
        WHERE 1=1
    "#;

/// Transport student listing with student details.
pub const TRANSPORT_STUDENTS_SQL: &'static str = r#"
        SELECT ts.id, ts.student_id, ts.vehicle_no, ts.route, ts.pickup_point, ts.fee_amount::float8 AS fee_amount, ts.status, ts.remarks, ts.created_at, ts.updated_at,
               COALESCE(s.name, ts.student_id) AS student_name,
               s.class_name AS class_name,
               s.course_name AS course_name,
               COUNT(*) OVER()::int AS total_count
        FROM transport_students ts
        LEFT JOIN students s ON LOWER(TRIM(s.student_id)) = LOWER(TRIM(ts.student_id))
        WHERE 1=1
    "#;

/// Inventory item listing with category, stock flag and stock value.
pub const ITEMS_SQL: &'static str = r#"
        SELECT i.id, i.category_id, i.name, i.required_qty, i.available_qty, 
               i.unit_price::float8 AS unit_price, i.low_stock_threshold, i.unit, 
               i.description, i.created_by, i.created_at, i.updated_at,
               c.name AS category_name,
               u.name AS entry_by_name,
               (i.available_qty <= i.low_stock_threshold) AS is_low_stock,
               (i.available_qty::float8 * i.unit_price::float8) AS total_value,
               COUNT(*) OVER()::int AS total_count
        FROM inventory_items i
        JOIN inventory_categories c ON c.id = i.category_id
        LEFT JOIN users u ON u.id = i.created_by
        WHERE 1=1
    "#;

/// Library catalogue listing with copies available.
pub const BOOKS_SQL: &'static str = r#"
        SELECT b.id, b.acc_no, b.title, b.author, b.subject, b.price::float8 AS price, b.quantity, b.added_date, b.sl_no, b.type, b.volume, b.number_val, b.month, b.year, b.publisher, b.created_at, b.updated_at,
            (b.quantity - COALESCE(active.count, 0))::int AS available_quantity,
            CASE
                WHEN b.quantity = 0 THEN 'unavailable'
                WHEN (b.quantity - COALESCE(active.count, 0)) <= 0 THEN 'issued'
                ELSE 'available'
            END AS status,
            COUNT(*) OVER()::int AS total_count
        FROM books b
        LEFT JOIN (
            SELECT book_id, COUNT(*) AS count
            FROM book_issues
            WHERE status = 'issued' OR status = 'overdue'
            GROUP BY book_id
        ) active ON active.book_id = b.id
        WHERE 1=1
    "#;

/// Library member listing with issue counts and class details.
pub const MEMBERS_SQL: &'static str = r#"
        SELECT m.id, m.student_id, m.user_id, m.name,
               COALESCE(s.class_name, m.class) AS class,
               COALESCE(s.course_name, m.course) AS course,
               m.phone, m.status, m.created_at, m.updated_at,
            COALESCE(issued.count, 0)::bigint AS currently_issued,
            COALESCE(total.count, 0)::bigint AS total_issued,
            COUNT(*) OVER()::int AS total_count
        FROM library_members m
        LEFT JOIN students s ON s.student_id = m.student_id
        LEFT JOIN (
            SELECT member_id, COUNT(*) AS count
            FROM book_issues
            WHERE status = 'issued' OR status = 'overdue'
            GROUP BY member_id
        ) issued ON issued.member_id = m.id
        LEFT JOIN (
            SELECT member_id, COUNT(*) AS count
            FROM book_issues
            GROUP BY member_id
        ) total ON total.member_id = m.id
        WHERE 1=1
    "#;

/// Library member listing grouped over issues.
pub const MEMBERS_HANDLER_SQL: &'static str = r#"
        SELECT m.id, m.student_id, m.user_id, m.name, m.class, m.phone, m.status, m.created_at, m.updated_at,
            COUNT(CASE WHEN bi.status IN ('issued','overdue') THEN 1 END)::int8 AS currently_issued,
            COUNT(bi.id)::int8 AS total_issued,
            COUNT(*) OVER()::int AS total_count
        FROM library_members m
        LEFT JOIN book_issues bi ON bi.member_id = m.id
    "#;

/// Book issue listing with member and book details.
pub const ISSUES_HANDLER_SQL: &'static str = r#"
        SELECT bi.id, bi.issue_no, bi.member_id, bi.book_id, bi.issued_by, bi.issue_date, bi.due_date, bi.return_date, bi.fine_amount::float8 AS fine_amount, bi.fine_paid, bi.status, bi.remarks, bi.created_at, bi.updated_at,
            m.name AS member_name, m.student_id, m.class,
            b.title AS book_title, b.acc_no, b.type AS book_type, b.sl_no AS book_sl_no,
            COUNT(*) OVER()::int AS total_count
        FROM book_issues bi
        JOIN library_members m ON m.id = bi.member_id
        JOIN books b ON b.id = bi.book_id
    "#;

/// General expense listing.
pub const EXPENSES_SQL: &'static str = r#"SELECT id, ref_no, description, amount::float8 AS amount, category, date, payment_mode, remarks, utr, receipt, party_name, spent_by, voucher_no, created_at, COUNT(*) OVER()::int AS total_count FROM expenses WHERE 1=1"#;

/// General expense listing as the finance service issues it.
pub const EXPENSES_SERVICE_SQL: &'static str = r#"SELECT id, ref_no, description, amount::float8 AS amount, category, date, payment_mode, remarks, utr, receipt, party_name, spent_by, voucher_no, created_at, COUNT(*) OVER()::int AS total_count FROM expenses WHERE 1=1"#;

/// Vehicle listing.
pub const VEHICLES_SQL: &'static str = r#"SELECT *, COUNT(*) OVER()::int AS total_count FROM vehicles WHERE 1=1"#;

/// Transport expense listing.
pub const TRANSPORT_EXPENSES_SQL: &'static str = r#"SELECT id, date, vehicle_no, type, vendor, liters::float8 AS liters, rate::float8 AS rate, amount::float8 AS amount, payment_mode, remarks, created_at, utr_no, COUNT(*) OVER()::int AS total_count FROM transport_expenses WHERE 1=1"#;

/// Piece 0 of the library statistics query.
pub const STATS_PART_0: &'static str = r#"
        SELECT
            (SELECT COUNT(*)::int8 FROM books"#;

/// Piece 1 of the library statistics query.
pub const STATS_PART_1: &'static str = r#" AND type = 'book') AS total_books,
            (SELECT COUNT(*)::int8 FROM books"#;

/// Piece 2 of the library statistics query.
pub const STATS_PART_2: &'static str = r#" AND type = 'international_journal') AS total_intl_journals,
            (SELECT COUNT(*)::int8 FROM books"#;

/// Piece 3 of the library statistics query.
pub const STATS_PART_3: &'static str = r#" AND type = 'national_journal') AS total_nat_journals,
            (SELECT COUNT(*)::int8 FROM books"#;

/// Piece 4 of the library statistics query.
pub const STATS_PART_4: &'static str = r#" AND type = 'magazine') AS total_magazines,
            (SELECT COUNT(*)::int8 FROM books"#;

/// Piece 5 of the library statistics query.
pub const STATS_PART_5: &'static str = r#") AS total_all_catalogues,
            (SELECT COUNT(*)::int8 FROM library_members WHERE status = 'active'"#;

/// Piece 6 of the library statistics query.
pub const STATS_PART_6: &'static str = r#") AS total_members,
            (SELECT COUNT(*)::int8 FROM book_issues WHERE status IN ('issued','overdue')"#;

/// Piece 7 of the library statistics query.
pub const STATS_PART_7: &'static str = r#") AS books_issued,
            (SELECT COUNT(*)::int8 FROM book_issues WHERE status = 'overdue'"#;

/// Piece 8 of the library statistics query.
pub const STATS_PART_8: &'static str = r#") AS overdue_books,
            (SELECT COALESCE(SUM(fine_amount), 0)::float8 FROM book_issues WHERE status = 'overdue' AND fine_paid = false"#;

/// Piece 9 of the library statistics query.
pub const STATS_PART_9: &'static str = r#") AS pending_fines
        "#;

} // verus!
